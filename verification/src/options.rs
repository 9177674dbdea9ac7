//! Build configuration: the overwrite policy, the loader selection, the
//! optional image seed, and the optional ssh key pair.
//!
//! Key paths and the image seed come from the command line as plain strings;
//! resolving them touches the disk and the URL parser, so those calls stand
//! behind trusted wrappers while every decision around them is verified.

use vstd::prelude::*;
use vstd::string::StringExecFns;
use crate::error::BuildError;
use crate::loader::Loader;

verus! {

/// The source of the base image: a remote URL or a local file. Only one
/// variant is populated per run.
#[derive(Debug, Clone, PartialEq, Eq)]
pub enum ImageSeed {
    /// A remote URL, kept in its normalized serialization.
    Url(String),
    /// A path on the local disk.
    File(String),
}

/// The options of one build run.
#[derive(Debug, Clone)]
pub struct BuildOptions {
    /// Delete an existing installation if present.
    pub overwrite: bool,
    /// The strategy used to load application code into the image.
    pub loader: Loader,
    /// A URL to a clean seed image on top of which to build.
    pub image_url: Option<String>,
    /// A path to a clean seed image on top of which to build.
    pub image_path: Option<String>,
    /// The public ssh key to use when pushing to the repositories.
    pub public_key: Option<String>,
    /// The private ssh key to use when pushing to the repositories.
    pub private_key: Option<String>,
}

/// Which component of a release version a release build bumps.
#[derive(Copy, Clone, Debug, PartialEq, Eq, Structural)]
pub enum VersionBump {
    /// Bump the major component.
    Major,
    /// Bump the minor component.
    Minor,
    /// Bump the patch component.
    Patch,
}

/// The options of a release build run.
#[derive(Debug, Clone)]
pub struct ReleaseBuildOptions {
    /// The strategy used to load application code into the image, if chosen
    /// explicitly.
    pub loader: Option<Loader>,
    /// Do not open a default world after the build.
    pub no_gt_world: bool,
    /// Which component version to bump for the release.
    pub bump: VersionBump,
    /// The public ssh key to use when pushing to the repositories.
    pub public_key: Option<String>,
    /// The private ssh key to use when pushing to the repositories.
    pub private_key: Option<String>,
}

/// The normalized serialization of the URL the characters spell, if they
/// spell a valid absolute URL; what a string parses to depends on the string
/// alone.
pub uninterp spec fn parsed_url(s: Seq<char>) -> Option<Seq<char>>;

/// Relies on `url::Url::parse`: accepts exactly the valid absolute URLs and
/// returns the parsed URL, whose serialization `url::Url::as_str` hands back.
#[verifier::external_body]
fn url_parse(s: &String) -> (r: Option<String>)
    ensures
        r is Some <==> parsed_url(s@) is Some,
        r is Some ==> r->0@ == parsed_url(s@)->0,
{
    url::Url::parse(s.as_str()).ok().map(|u| u.as_str().to_owned())
}

/// Relies on `std::path::Path::exists`: whether an entry is on the disk at
/// this moment; nothing is promised of the answer.
#[verifier::external_body]
fn path_exists(p: &String) -> bool {
    std::path::Path::new(p.as_str()).exists()
}

/// Relies on `to_absolute::canonicalize`: resolves an existing path to an
/// absolute, symlink-free form. The answer depends on the state of the disk,
/// so nothing is promised of it; a failure comes back as `None`.
#[verifier::external_body]
fn canonical_path(p: &String) -> (r: Option<String>) {
    to_absolute::canonicalize(std::path::Path::new(p.as_str()))
        .ok()
        .map(|pb| pb.to_string_lossy().into_owned())
}

/// Pairs two resolved key paths: both present give a pair, both absent give
/// nothing, and a partial specification is a configuration error, not a
/// silent default.
pub fn check_key_pair(private: Option<String>, public: Option<String>) -> (r: Result<
    Option<(String, String)>,
    BuildError,
>)
    ensures
        private is Some && public is Some ==> r == Ok::<Option<(String, String)>, BuildError>(
            Some((private->0, public->0)),
        ),
        private is None && public is None ==> r == Ok::<Option<(String, String)>, BuildError>(
            None,
        ),
        (private is Some) != (public is Some) ==> r is Err && r->Err_0 is Configuration,
{
    match (private, public) {
        (Some(pr), Some(pu)) => Ok(Some((pr, pu))),
        (None, None) => Ok(None),
        _ => Err(
            BuildError::Configuration(
                String::from_str("Both private and public key must be set, or none"),
            ),
        ),
    }
}

/// Resolves one optional key path against the disk: an absent key resolves
/// to nothing, a present key must exist on disk and is canonicalized.
fn resolve_key(key: &Option<String>) -> (r: Result<Option<String>, BuildError>)
    ensures
        key is None ==> r == Ok::<Option<String>, BuildError>(None),
        r is Ok ==> (r->Ok_0 is Some <==> key is Some),
        r is Err ==> key is Some && (r->Err_0 is NotFound || r->Err_0 is Io),
{
    match key {
        None => Ok(None),
        Some(k) => {
            if path_exists(k) {
                match canonical_path(k) {
                    Some(p) => Ok(Some(p)),
                    None => Err(
                        BuildError::Io(String::from_str("could not canonicalize the key path")),
                    ),
                }
            } else {
                let mut m = String::from_str("specified key does not exist: ");
                m.append(k.as_str());
                Err(BuildError::NotFound(m))
            }
        },
    }
}

impl BuildOptions {
    /// A configuration with every option at its default: no overwrite, the
    /// cloner loader, and no seed or keys.
    pub fn new() -> (r: BuildOptions)
        ensures
            r.overwrite == false,
            r.loader is Cloner,
            r.image_url is None,
            r.image_path is None,
            r.public_key is None,
            r.private_key is None,
    {
        BuildOptions {
            overwrite: false,
            loader: Loader::Cloner,
            image_url: None,
            image_path: None,
            public_key: None,
            private_key: None,
        }
    }

    /// Whether an existing installation may be deleted.
    pub fn should_overwrite(&self) -> (r: bool)
        ensures
            r == self.overwrite,
    {
        self.overwrite
    }

    /// Sets the overwrite policy.
    pub fn overwrite(&mut self, overwrite: bool)
        ensures
            final(self).overwrite == overwrite,
            final(self).loader == old(self).loader,
            final(self).image_url == old(self).image_url,
            final(self).image_path == old(self).image_path,
            final(self).public_key == old(self).public_key,
            final(self).private_key == old(self).private_key,
    {
        self.overwrite = overwrite;
    }

    /// Sets the loader strategy.
    pub fn loader(&mut self, loader: Loader)
        ensures
            final(self).loader == loader,
            final(self).overwrite == old(self).overwrite,
            final(self).image_url == old(self).image_url,
            final(self).image_path == old(self).image_path,
            final(self).public_key == old(self).public_key,
            final(self).private_key == old(self).private_key,
    {
        self.loader = loader;
    }

    /// Resolves the public key path, which must exist on disk if given.
    pub fn public_key(&self) -> (r: Result<Option<String>, BuildError>)
        ensures
            self.public_key is None ==> r == Ok::<Option<String>, BuildError>(None),
            r is Ok ==> (r->Ok_0 is Some <==> self.public_key is Some),
            r is Err ==> self.public_key is Some && (r->Err_0 is NotFound || r->Err_0 is Io),
    {
        resolve_key(&self.public_key)
    }

    /// Resolves the private key path, which must exist on disk if given.
    pub fn private_key(&self) -> (r: Result<Option<String>, BuildError>)
        ensures
            self.private_key is None ==> r == Ok::<Option<String>, BuildError>(None),
            r is Ok ==> (r->Ok_0 is Some <==> self.private_key is Some),
            r is Err ==> self.private_key is Some && (r->Err_0 is NotFound || r->Err_0 is Io),
    {
        resolve_key(&self.private_key)
    }

    /// Resolves the ssh key pair. Both keys absent resolves to nothing; both
    /// present resolves to the pair of canonicalized paths; exactly one
    /// present is an error, as is a key path that is not on the disk.
    pub fn ssh_keys(&self) -> (r: Result<Option<(String, String)>, BuildError>)
        ensures
            self.public_key is None && self.private_key is None ==> r == Ok::<
                Option<(String, String)>,
                BuildError,
            >(None),
            r is Ok ==> (r->Ok_0 is Some <==> (self.public_key is Some && self.private_key
                is Some)),
            (self.public_key is Some) != (self.private_key is Some) ==> r is Err,
            r is Err ==> (r->Err_0 is Configuration || r->Err_0 is NotFound || r->Err_0 is Io),
            r is Err && r->Err_0 is Configuration ==> (self.public_key is Some) != (
            self.private_key is Some),
    {
        let public = match self.public_key() {
            Ok(p) => p,
            Err(e) => {
                return Err(e);
            },
        };
        let private = match self.private_key() {
            Ok(p) => p,
            Err(e) => {
                return Err(e);
            },
        };
        check_key_pair(private, public)
    }

    /// Selects the image seed. Both a URL and a local path at once is a
    /// configuration error rather than a silent preference; a URL must be a
    /// valid absolute URL and is kept normalized.
    pub fn image_seed(&self) -> (r: Result<Option<ImageSeed>, BuildError>)
        ensures
            self.image_url is Some && self.image_path is Some ==> r is Err && r->Err_0
                is Configuration,
            self.image_url is None && self.image_path is None ==> r == Ok::<
                Option<ImageSeed>,
                BuildError,
            >(None),
            self.image_url is None && self.image_path is Some ==> r is Ok && r->Ok_0 is Some
                && r->Ok_0->0 is File && r->Ok_0->0->File_0 == self.image_path->0,
            self.image_url is Some && self.image_path is None ==> {
                &&& r is Ok <==> parsed_url(self.image_url->0@) is Some
                &&& r is Ok ==> r->Ok_0 is Some && r->Ok_0->0 is Url && r->Ok_0->0->Url_0@
                    == parsed_url(self.image_url->0@)->0
                &&& r is Err ==> r->Err_0 is Configuration
            },
    {
        match (&self.image_url, &self.image_path) {
            (Some(_), Some(_)) => Err(
                BuildError::Configuration(
                    String::from_str("both an image URL and an image path are set"),
                ),
            ),
            (None, None) => Ok(None),
            (None, Some(p)) => Ok(Some(ImageSeed::File(p.clone()))),
            (Some(u), None) => {
                match url_parse(u) {
                    Some(normalized) => Ok(Some(ImageSeed::Url(normalized))),
                    None => Err(
                        BuildError::Configuration(
                            String::from_str("the image URL is not a valid URL"),
                        ),
                    ),
                }
            },
        }
    }
}

} // verus!
