//! The OS images and Kubernetes release channels this engine supports.
use crate::api::AvailableOsImage;
use vstd::prelude::*;

verus! {

/// The supported Kubernetes channels, newest first.
pub fn kube_versions() -> (r: Vec<String>)
    ensures
        r.deep_view() =~= seq![
            "1.28/stable"@,
            "1.27/stable"@,
            "1.26/stable"@,
            "1.25/stable"@,
            "1.24/stable"@,
        ],
{
    let mut v: Vec<String> = Vec::new();
    v.push(String::from_str("1.28/stable"));
    v.push(String::from_str("1.27/stable"));
    v.push(String::from_str("1.26/stable"));
    v.push(String::from_str("1.25/stable"));
    v.push(String::from_str("1.24/stable"));
    v
}

/// The supported guest OS images, each a display name and a download URL.
pub fn os_images() -> (r: Vec<AvailableOsImage>)
    ensures
        r@.len() == 1,
        r@[0].name@ == "Ubuntu Server 22.04 LTS - jammy-server-cloudimg-amd64.img"@,
        r@[0].url@ == "https://cloud-images.ubuntu.com/jammy/current/jammy-server-cloudimg-amd64.img"@,
{
    let mut v: Vec<AvailableOsImage> = Vec::new();
    v.push(
        AvailableOsImage::new(
            "Ubuntu Server 22.04 LTS - jammy-server-cloudimg-amd64.img",
            "https://cloud-images.ubuntu.com/jammy/current/jammy-server-cloudimg-amd64.img",
        ),
    );
    v
}

} // verus!
