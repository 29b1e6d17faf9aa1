//! The requests that the pipeline sends: the build of the packed context, and
//! the push of the image it tagged.
use vstd::prelude::*;

use crate::image_ref::{split_image, split_spec};

verus! {

/// A build request to the daemon; the packed context travels as its body.
pub struct BuildRequest {
    /// The Dockerfile, relative to the context root.
    pub dockerfile: String,
    /// The image reference that the built image is tagged with.
    pub tag: String,
    /// Remove intermediate containers.
    pub remove_intermediate: bool,
    /// Always pull the base image.
    pub pull: bool,
}

/// A push request to the registry.
pub struct PushRequest {
    pub repository: String,
    pub tag: String,
}

/// The build request for `image`, built from the Dockerfile `dockerfile`.
/// Intermediate containers are always removed.
pub fn build_request(dockerfile: &str, image: &str, pull: bool) -> (r: BuildRequest)
    ensures
        r.dockerfile@ == dockerfile@,
        r.tag@ == image@,
        r.remove_intermediate,
        r.pull == pull,
{
    BuildRequest {
        dockerfile: String::from_str(dockerfile),
        tag: String::from_str(image),
        remove_intermediate: true,
        pull,
    }
}

/// The push request for the image built as `image`: its repository and tag.
pub fn push_request(image: &str) -> (r: PushRequest)
    ensures
        r.repository@ == split_spec(image@).0,
        r.tag@ == split_spec(image@).1,
{
    let (repository, tag) = split_image(image);
    PushRequest { repository, tag }
}

} // verus!
