use vstd::prelude::*;

verus! {

/// Where requests are sent: a named AWS region, or a custom endpoint.
pub enum RegionSetting {
    /// A known region, under its canonical name.
    Named(String),
    /// A custom endpoint, under a name of its own.
    Custom { name: String, endpoint: String },
}

/// The settings a sink runs with, once the destination has been resolved.
pub struct S3SinkConfig {
    /// Size in bytes at which a batch is submitted.
    pub buffer_size: usize,
    /// Text that every object key starts with.
    pub key_prefix: String,
    /// The bucket objects are written to.
    pub bucket: String,
    /// Whether batches are stored gzip-encoded.
    pub gzip: bool,
    /// Where the bucket is reached.
    pub region: RegionSetting,
}

/// The settings as a user writes them: exactly one of `region` and `endpoint` is expected.
pub struct S3SinkConfig2 {
    pub bucket: String,
    pub key_prefix: String,
    pub region: Option<String>,
    pub endpoint: Option<String>,
    pub buffer_size: usize,
    pub gzip: bool,
}

/// What looking a region name up gives: the canonical name, or an error message.
pub uninterp spec fn region_lookup(name: Seq<char>) -> Result<Seq<char>, Seq<char>>;

/// Relies on rusoto_core's `FromStr` for `Region` with `Region::name`: a region name
/// is turned into the region's canonical name, or into the message of the parse error.
#[verifier::external_body]
fn parse_region(name: &str) -> (r: Result<String, String>)
    ensures
        match r {
            Ok(n) => region_lookup(name@) == Ok::<Seq<char>, Seq<char>>(n@),
            Err(e) => region_lookup(name@) == Err::<Seq<char>, Seq<char>>(e@),
        },
{
    match name.parse::<rusoto_core::Region>() {
        Ok(region) => Ok(region.name().to_string()),
        Err(e) => Err(e.to_string()),
    }
}

/// The message when both `region` and `endpoint` are set.
pub open spec fn both_set_message() -> Seq<char> {
    "Only one of 'region' or 'endpoint' can be specified"@
}

/// The message when neither `region` nor `endpoint` is set.
pub open spec fn none_set_message() -> Seq<char> {
    "Must set 'region' or 'endpoint'"@
}

/// The name under which a custom endpoint is known.
pub open spec fn custom_region_name() -> Seq<char> {
    "custom"@
}

/// `r` is what resolving a region from these two settings must give.
pub open spec fn region_resolved(
    region: Option<String>,
    endpoint: Option<String>,
    r: Result<RegionSetting, String>,
) -> bool {
    match (region, endpoint) {
        (Some(_), Some(_)) => r matches Err(m) && m@ == both_set_message(),
        (Some(n), None) => match region_lookup(n@) {
            Ok(c) => r matches Ok(RegionSetting::Named(x)) && x@ == c,
            Err(e) => r matches Err(m) && m@ == e,
        },
        (None, Some(e)) => r matches Ok(RegionSetting::Custom { name, endpoint }) && name@
            == custom_region_name() && endpoint@ == e@,
        (None, None) => r matches Err(m) && m@ == none_set_message(),
    }
}

impl S3SinkConfig2 {
    /// Resolves the destination: a region name, looked up, or a custom endpoint;
    /// setting both or neither is an error.
    pub fn region(&self) -> (r: Result<RegionSetting, String>)
        ensures
            region_resolved(self.region, self.endpoint, r),
    {
        if self.region.is_some() && self.endpoint.is_some() {
            Err("Only one of 'region' or 'endpoint' can be specified".to_owned())
        } else if let Some(region) = &self.region {
            match parse_region(region.as_str()) {
                Ok(name) => Ok(RegionSetting::Named(name)),
                Err(e) => Err(e),
            }
        } else if let Some(endpoint) = &self.endpoint {
            Ok(RegionSetting::Custom { name: "custom".to_owned(), endpoint: endpoint.clone() })
        } else {
            Err("Must set 'region' or 'endpoint'".to_owned())
        }
    }

    /// The settings a sink runs with, or the error of resolving the destination.
    pub fn config(&self) -> (r: Result<S3SinkConfig, String>)
        ensures
            match r {
                Ok(c) => {
                    &&& region_resolved(self.region, self.endpoint, Ok(c.region))
                    &&& c.buffer_size == self.buffer_size
                    &&& c.key_prefix@ == self.key_prefix@
                    &&& c.bucket@ == self.bucket@
                    &&& c.gzip == self.gzip
                },
                Err(e) => region_resolved(self.region, self.endpoint, Err(e)),
            },
    {
        let region = match self.region() {
            Ok(region) => region,
            Err(e) => return Err(e),
        };
        Ok(
            S3SinkConfig {
                buffer_size: self.buffer_size,
                key_prefix: self.key_prefix.clone(),
                bucket: self.bucket.clone(),
                gzip: self.gzip,
                region,
            },
        )
    }
}

} // verus!
