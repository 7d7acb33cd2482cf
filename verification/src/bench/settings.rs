//! Where the benchmark's providers and data live.

use vstd::prelude::*;

verus! {

/// The TopK connection settings, read from the environment.
pub struct TopkRsSettings {
    /// Topk API key
    pub topk_api_key: String,
    /// Topk region
    pub topk_region: String,
    /// Topk host
    pub topk_host: Option<String>,
    /// Topk HTTPS
    pub topk_https: Option<bool>,
}

impl TopkRsSettings {
    /// The host to connect to: the one set, else `topk.io`.
    pub fn host(&self) -> (r: String)
        ensures
            r@ == match self.topk_host {
                Some(h) => h@,
                None => "topk.io"@,
            },
    {
        match &self.topk_host {
            Some(h) => h.clone(),
            None => "topk.io".to_owned(),
        }
    }

    /// Whether to connect over HTTPS: as set, else yes.
    pub fn https(&self) -> (r: bool)
        ensures
            r == match self.topk_https {
                Some(b) => b,
                None => true,
            },
    {
        match self.topk_https {
            Some(b) => b,
            None => true,
        }
    }
}

/// The AWS settings of the data bucket, read from the environment.
pub struct S3Settings {
    /// AWS access key ID
    pub aws_access_key_id: String,
    /// AWS secret access key
    pub aws_secret_access_key: String,
    /// AWS region
    pub aws_region: String,
}

impl S3Settings {
    /// The S3 endpoint of the region: `https://s3.<region>.amazonaws.com`.
    pub fn endpoint_url(&self) -> (r: String)
        ensures
            r@ == "https://s3."@ + self.aws_region@ + ".amazonaws.com"@,
    {
        let mut s = "https://s3.".to_owned();
        s.append(self.aws_region.as_str());
        s.append(".amazonaws.com");
        s
    }
}

/// Where a data set pulled from the bucket is kept: `/tmp/topk-bench/<key>`.
pub fn dataset_local_path(key: &str) -> (r: String)
    ensures
        r@ == "/tmp/topk-bench/"@ + key@,
{
    let mut s = "/tmp/topk-bench/".to_owned();
    s.append(key);
    s
}

} // verus!
