//! The service's configuration: bucket names, access grants, endpoints and
//! the shared secret, resolved once at startup from what the environment
//! holds.

use vstd::prelude::*;
use crate::sink::{SinkDescriptor, SinkKind, SinkModel};
use crate::text::concat2;

verus! {

/// The values of the environment variables that the service reads, each
/// `None` where the variable is not set.
#[derive(Debug)]
pub struct Environment {
    pub sfw_bucket: Option<String>,
    pub storj_access_grant_sfw: Option<String>,
    pub nsfw_bucket: Option<String>,
    pub storj_access_grant_nsfw: Option<String>,
    pub hetzner_s3_endpoint: Option<String>,
    pub hetzner_s3_bucket: Option<String>,
    pub hetzner_s3_access_key: Option<String>,
    pub hetzner_s3_secret_key: Option<String>,
    pub hetzner_s3_region: Option<String>,
    pub service_secret_token: Option<String>,
}

/// A required variable that is not set.
#[derive(Clone, Copy, Debug, PartialEq, Eq, Structural)]
pub enum MissingVariable {
    StorjAccessGrantSfw,
    StorjAccessGrantNsfw,
    ServiceSecretToken,
    HetznerS3Endpoint,
    HetznerS3Bucket,
    HetznerS3AccessKey,
    HetznerS3SecretKey,
}

impl MissingVariable {
    /// What the service says when it cannot start for want of the variable.
    pub fn message(self) -> (message: &'static str)
        ensures
            message@ == match self {
                MissingVariable::StorjAccessGrantSfw =>
                    "Access grant to be present: STORJ_ACCESS_GRANT_SFW"@,
                MissingVariable::StorjAccessGrantNsfw =>
                    "Access grant to be present: STORJ_ACCESS_GRANT_NSFW"@,
                MissingVariable::ServiceSecretToken => "A shared secret to be present"@,
                MissingVariable::HetznerS3Endpoint =>
                    "Hetzner S3 endpoint to be present: HETZNER_S3_ENDPOINT"@,
                MissingVariable::HetznerS3Bucket =>
                    "Hetzner S3 bucket to be present: HETZNER_S3_BUCKET"@,
                MissingVariable::HetznerS3AccessKey =>
                    "Hetzner S3 access key to be present: HETZNER_S3_ACCESS_KEY"@,
                MissingVariable::HetznerS3SecretKey =>
                    "Hetzner S3 secret key to be present: HETZNER_S3_SECRET_KEY"@,
            },
    {
        match self {
            MissingVariable::StorjAccessGrantSfw =>
                "Access grant to be present: STORJ_ACCESS_GRANT_SFW",
            MissingVariable::StorjAccessGrantNsfw =>
                "Access grant to be present: STORJ_ACCESS_GRANT_NSFW",
            MissingVariable::ServiceSecretToken => "A shared secret to be present",
            MissingVariable::HetznerS3Endpoint =>
                "Hetzner S3 endpoint to be present: HETZNER_S3_ENDPOINT",
            MissingVariable::HetznerS3Bucket => "Hetzner S3 bucket to be present: HETZNER_S3_BUCKET",
            MissingVariable::HetznerS3AccessKey =>
                "Hetzner S3 access key to be present: HETZNER_S3_ACCESS_KEY",
            MissingVariable::HetznerS3SecretKey =>
                "Hetzner S3 secret key to be present: HETZNER_S3_SECRET_KEY",
        }
    }

    /// The name of the variable in the environment.
    pub fn name(self) -> (name: &'static str)
        ensures
            name@ == match self {
                MissingVariable::StorjAccessGrantSfw => "STORJ_ACCESS_GRANT_SFW"@,
                MissingVariable::StorjAccessGrantNsfw => "STORJ_ACCESS_GRANT_NSFW"@,
                MissingVariable::ServiceSecretToken => "SERVICE_SECRET_TOKEN"@,
                MissingVariable::HetznerS3Endpoint => "HETZNER_S3_ENDPOINT"@,
                MissingVariable::HetznerS3Bucket => "HETZNER_S3_BUCKET"@,
                MissingVariable::HetznerS3AccessKey => "HETZNER_S3_ACCESS_KEY"@,
                MissingVariable::HetznerS3SecretKey => "HETZNER_S3_SECRET_KEY"@,
            },
    {
        match self {
            MissingVariable::StorjAccessGrantSfw => "STORJ_ACCESS_GRANT_SFW",
            MissingVariable::StorjAccessGrantNsfw => "STORJ_ACCESS_GRANT_NSFW",
            MissingVariable::ServiceSecretToken => "SERVICE_SECRET_TOKEN",
            MissingVariable::HetznerS3Endpoint => "HETZNER_S3_ENDPOINT",
            MissingVariable::HetznerS3Bucket => "HETZNER_S3_BUCKET",
            MissingVariable::HetznerS3AccessKey => "HETZNER_S3_ACCESS_KEY",
            MissingVariable::HetznerS3SecretKey => "HETZNER_S3_SECRET_KEY",
        }
    }
}

/// The resolved configuration.
#[derive(Debug)]
pub struct Config {
    /// The bucket of the general partition.
    pub yral_videos: String,
    /// The access grant of the general partition.
    pub access_grant_sfw: String,
    /// The bucket of the restricted partition.
    pub yral_nsfw_videos: String,
    /// The access grant of the restricted partition.
    pub access_grant_nsfw: String,
    pub hetzner_s3_endpoint: String,
    pub hetzner_s3_bucket: String,
    pub hetzner_s3_access_key: String,
    pub hetzner_s3_secret_key: String,
    pub hetzner_s3_region: String,
    /// The value that the `Authorization` header of a request must have.
    pub service_secret_token: String,
}

/// The first required variable, in the order in which the service asks for
/// them, that the environment does not hold.
pub open spec fn first_missing(env: Environment) -> Option<MissingVariable> {
    if env.storj_access_grant_sfw is None {
        Some(MissingVariable::StorjAccessGrantSfw)
    } else if env.storj_access_grant_nsfw is None {
        Some(MissingVariable::StorjAccessGrantNsfw)
    } else if env.service_secret_token is None {
        Some(MissingVariable::ServiceSecretToken)
    } else if env.hetzner_s3_endpoint is None {
        Some(MissingVariable::HetznerS3Endpoint)
    } else if env.hetzner_s3_bucket is None {
        Some(MissingVariable::HetznerS3Bucket)
    } else if env.hetzner_s3_access_key is None {
        Some(MissingVariable::HetznerS3AccessKey)
    } else if env.hetzner_s3_secret_key is None {
        Some(MissingVariable::HetznerS3SecretKey)
    } else {
        None
    }
}

/// The value of an optional variable, or the default that stands in for it.
pub open spec fn value_or(value: Option<String>, fallback: Seq<char>) -> Seq<char> {
    match value {
        Some(v) => v@,
        None => fallback,
    }
}

/// Takes the value of an optional variable, or the default.
fn or_default(value: Option<String>, fallback: &str) -> (chosen: String)
    ensures
        chosen@ == value_or(value, fallback@),
{
    match value {
        Some(v) => v,
        None => String::from_str(fallback),
    }
}

impl Config {
    /// Resolves the configuration. A required variable that is not set is an
    /// error, and the first such variable is named. An optional one that is not
    /// set gets its default: `yral-videos` and `yral-nsfw-videos` for the two
    /// buckets, `eu-central` for the region.
    pub fn from_environment(env: Environment) -> (resolved: Result<Config, MissingVariable>)
        ensures
            match first_missing(env) {
                Some(variable) => resolved == Err::<Config, MissingVariable>(variable),
                None => resolved matches Ok(config) && {
                    &&& config.yral_videos@ == value_or(env.sfw_bucket, "yral-videos"@)
                    &&& config.access_grant_sfw@ == env.storj_access_grant_sfw->0@
                    &&& config.yral_nsfw_videos@ == value_or(
                        env.nsfw_bucket,
                        "yral-nsfw-videos"@,
                    )
                    &&& config.access_grant_nsfw@ == env.storj_access_grant_nsfw->0@
                    &&& config.hetzner_s3_endpoint@ == env.hetzner_s3_endpoint->0@
                    &&& config.hetzner_s3_bucket@ == env.hetzner_s3_bucket->0@
                    &&& config.hetzner_s3_access_key@ == env.hetzner_s3_access_key->0@
                    &&& config.hetzner_s3_secret_key@ == env.hetzner_s3_secret_key->0@
                    &&& config.hetzner_s3_region@ == value_or(
                        env.hetzner_s3_region,
                        "eu-central"@,
                    )
                    &&& config.service_secret_token@ == "Bearer "@
                        + env.service_secret_token->0@
                },
            },
    {
        let access_grant_sfw = match env.storj_access_grant_sfw {
            Some(v) => v,
            None => { return Err(MissingVariable::StorjAccessGrantSfw); },
        };
        let access_grant_nsfw = match env.storj_access_grant_nsfw {
            Some(v) => v,
            None => { return Err(MissingVariable::StorjAccessGrantNsfw); },
        };
        let secret = match env.service_secret_token {
            Some(v) => v,
            None => { return Err(MissingVariable::ServiceSecretToken); },
        };
        let hetzner_s3_endpoint = match env.hetzner_s3_endpoint {
            Some(v) => v,
            None => { return Err(MissingVariable::HetznerS3Endpoint); },
        };
        let hetzner_s3_bucket = match env.hetzner_s3_bucket {
            Some(v) => v,
            None => { return Err(MissingVariable::HetznerS3Bucket); },
        };
        let hetzner_s3_access_key = match env.hetzner_s3_access_key {
            Some(v) => v,
            None => { return Err(MissingVariable::HetznerS3AccessKey); },
        };
        let hetzner_s3_secret_key = match env.hetzner_s3_secret_key {
            Some(v) => v,
            None => { return Err(MissingVariable::HetznerS3SecretKey); },
        };
        Ok(
            Config {
                yral_videos: or_default(env.sfw_bucket, "yral-videos"),
                access_grant_sfw,
                yral_nsfw_videos: or_default(env.nsfw_bucket, "yral-nsfw-videos"),
                access_grant_nsfw,
                hetzner_s3_endpoint,
                hetzner_s3_bucket,
                hetzner_s3_access_key,
                hetzner_s3_secret_key,
                hetzner_s3_region: or_default(env.hetzner_s3_region, "eu-central"),
                service_secret_token: concat2("Bearer ", secret.as_str()),
            },
        )
    }

    /// The process-backed sink of a partition as contracts see it.
    pub open spec fn storj_sink_model(&self, is_nsfw: bool) -> SinkModel {
        if is_nsfw {
            SinkModel {
                kind: SinkKind::Process,
                destination_root: self.yral_nsfw_videos@,
                credential: self.access_grant_nsfw@,
            }
        } else {
            SinkModel {
                kind: SinkKind::Process,
                destination_root: self.yral_videos@,
                credential: self.access_grant_sfw@,
            }
        }
    }

    /// The process-backed sink of a partition: the restricted one for
    /// sensitive content, the general one for the rest.
    pub fn storj_sink(&self, is_nsfw: bool) -> (sink: SinkDescriptor)
        ensures
            sink@ == self.storj_sink_model(is_nsfw),
    {
        if is_nsfw {
            SinkDescriptor::new(
                SinkKind::Process,
                self.yral_nsfw_videos.as_str(),
                self.access_grant_nsfw.as_str(),
            )
        } else {
            SinkDescriptor::new(
                SinkKind::Process,
                self.yral_videos.as_str(),
                self.access_grant_sfw.as_str(),
            )
        }
    }
}

} // verus!
