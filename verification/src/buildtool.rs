//! Container-based cross compilation: the link styles, the tool versions a
//! build is pinned to, the container templates, and the container runner's
//! bookkeeping. Launching processes is left to the program around this
//! library.

use vstd::prelude::*;
use vstd::string::StringExecFns;

verus! {

/// How the produced binary links its dependencies: statically linked
/// binaries are larger but more compatible.
#[derive(Clone, Copy, Debug, PartialEq, Eq, Structural)]
pub enum Link {
    Dynamic,
    Static,
}

impl Link {
    /// The compilation target for this link style.
    pub fn target_triple(&self) -> (r: String)
        ensures
            self is Static ==> r@ == "x86_64-unknown-linux-musl"@,
            self is Dynamic ==> r@ == "x86_64-unknown-linux-gnu"@,
    {
        match self {
            Link::Static => String::from_str("x86_64-unknown-linux-musl"),
            Link::Dynamic => String::from_str("x86_64-unknown-linux-gnu"),
        }
    }
}

/// A pinned version of the musl C library.
#[derive(Debug, Clone, PartialEq)]
pub struct MuslVersion(pub String);

impl MuslVersion {
    /// Wraps a version string.
    pub fn new(s: &str) -> (r: MuslVersion)
        ensures
            r.0@ == s@,
    {
        MuslVersion(s.to_owned())
    }

    /// The version text.
    pub fn text(&self) -> (r: &str)
        ensures
            r@ == self.0@,
    {
        self.0.as_str()
    }
}

/// A pinned version of OpenSSL.
#[derive(Debug, Clone, PartialEq)]
pub struct OpenSslVersion(pub String);

impl OpenSslVersion {
    /// Wraps a version string.
    pub fn new(s: &str) -> (r: OpenSslVersion)
        ensures
            r.0@ == s@,
    {
        OpenSslVersion(s.to_owned())
    }

    /// The version text.
    pub fn text(&self) -> (r: &str)
        ensures
            r@ == self.0@,
    {
        self.0.as_str()
    }
}

/// A pinned toolchain version.
#[derive(Debug, Clone, PartialEq)]
pub struct RustupVersion(pub String);

impl RustupVersion {
    /// Wraps a version string.
    pub fn new(s: &str) -> (r: RustupVersion)
        ensures
            r.0@ == s@,
    {
        RustupVersion(s.to_owned())
    }

    /// The version text.
    pub fn text(&self) -> (r: &str)
        ensures
            r@ == self.0@,
    {
        self.0.as_str()
    }
}

/// The inputs of the dynamically-linked container recipe.
#[derive(Debug)]
pub struct DockerDynamicTemplate<'a> {
    pub rustup_version: &'a RustupVersion,
}

/// The inputs of the statically-linked container recipe.
#[derive(Debug)]
pub struct DockerStaticTemplate<'a> {
    pub rustup_version: &'a RustupVersion,
    pub target_triple: &'a str,
    pub musl_version: &'a MuslVersion,
    pub openssl_version: &'a OpenSslVersion,
}

/// The bookkeeping of one container runner: its recipe, the image it
/// produces, and whether the container tooling has been validated yet.
/// Validating, building the image and running commands are process work
/// done by the program around this library.
#[derive(Debug)]
pub struct DockerRunner<'a> {
    pub dockerfile: &'a str,
    pub image_name: &'a str,
    pub checked: bool,
}

impl<'a> DockerRunner<'a> {
    /// A runner for this recipe and image, not yet validated.
    pub fn new(dockerfile: &'a str, image_name: &'a str) -> (r: DockerRunner<'a>)
        ensures
            r.dockerfile@ == dockerfile@,
            r.image_name@ == image_name@,
            !r.checked,
    {
        DockerRunner { checked: false, dockerfile, image_name }
    }

    /// Records that the container tooling answered a validation probe.
    pub fn mark_checked(&mut self)
        ensures
            final(self).dockerfile == old(self).dockerfile,
            final(self).image_name == old(self).image_name,
            final(self).checked,
    {
        self.checked = true;
    }
}

} // verus!
