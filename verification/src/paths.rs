//! Where things are: the configured roots, and how a relative path is resolved under one.

use vstd::prelude::*;

verus! {

/// Whether a path starts at the root. Joining such a path onto a base discards the base.
pub open spec fn is_absolute(path: Seq<char>) -> bool {
    path.len() > 0 && path[0] == '/'
}

/// Whether a `/` has to be put between `base` and what is appended to it.
pub open spec fn needs_separator(base: Seq<char>) -> bool {
    base.len() > 0 && base.last() != '/'
}

/// `part` resolved against `base`: an absolute `part` stands for itself; otherwise it is
/// appended to `base`, after a `/` unless `base` is empty or already ends in one.
pub open spec fn joined(base: Seq<char>, part: Seq<char>) -> Seq<char> {
    if is_absolute(part) {
        part
    } else if needs_separator(base) {
        base + seq!['/'] + part
    } else {
        base + part
    }
}

/// Resolves `part` against `base`.
pub fn join(base: &str, part: &str) -> (path: String)
    ensures
        path@ == joined(base@, part@),
{
    if part.unicode_len() > 0 && part.get_char(0) == '/' {
        return part.to_owned();
    }
    let mut path = base.to_owned();
    let len = base.unicode_len();
    if len > 0 && base.get_char(len - 1) != '/' {
        proof {
            reveal_strlit("/");
            assert("/"@ =~= seq!['/']);
        }
        path.append("/");
    }
    path.append(part);
    path
}

/// A setting as given, or `default` where none was given.
pub open spec fn setting_or(setting: Option<String>, default: Seq<char>) -> Seq<char> {
    match setting {
        Some(value) => value@,
        None => default,
    }
}

/// The gallery root: the directory under which the media files lie.
pub fn gallery_path(setting: Option<String>) -> (root: String)
    ensures
        root@ == setting_or(setting, "gallery/"@),
{
    match setting {
        Some(value) => value,
        None => "gallery/".to_owned(),
    }
}

/// The thumbnails root: the directory that mirrors the gallery root and holds the cached
/// thumbnails.
pub fn thumbnails_path(setting: Option<String>) -> (root: String)
    ensures
        root@ == setting_or(setting, "thumbnails/"@),
{
    match setting {
        Some(value) => value,
        None => "thumbnails/".to_owned(),
    }
}

/// The assets root: the directory of the static files served beside the gallery.
pub fn assets_path(setting: Option<String>) -> (root: String)
    ensures
        root@ == setting_or(setting, "assets/"@),
{
    match setting {
        Some(value) => value,
        None => "assets/".to_owned(),
    }
}

/// The image served in place of a file that does not exist.
pub fn notfound_path(setting: Option<String>) -> (file: String)
    ensures
        file@ == setting_or(setting, "notfound.jpg"@),
{
    match setting {
        Some(value) => value,
        None => "notfound.jpg".to_owned(),
    }
}

/// The paths a gallery is served from, fixed once when the server starts.
pub struct Config {
    pub gallery: String,
    pub thumbnails: String,
    pub assets: String,
    pub notfound: String,
}

impl Config {
    /// The configuration with each path as given, or at its default where none was given.
    pub fn new(
        gallery: Option<String>,
        thumbnails: Option<String>,
        assets: Option<String>,
        notfound: Option<String>,
    ) -> (config: Config)
        ensures
            config.gallery@ == setting_or(gallery, "gallery/"@),
            config.thumbnails@ == setting_or(thumbnails, "thumbnails/"@),
            config.assets@ == setting_or(assets, "assets/"@),
            config.notfound@ == setting_or(notfound, "notfound.jpg"@),
    {
        Config {
            gallery: gallery_path(gallery),
            thumbnails: thumbnails_path(thumbnails),
            assets: assets_path(assets),
            notfound: notfound_path(notfound),
        }
    }

    /// Where the media file `path` itself lies.
    pub fn source_location(&self, path: &str) -> (location: String)
        ensures
            location@ == joined(self.gallery@, path@),
    {
        join(self.gallery.as_str(), path)
    }

    /// Where the cached thumbnail of the media file `path` lies: at the same relative path
    /// under the thumbnails root.
    pub fn cache_location(&self, path: &str) -> (location: String)
        ensures
            location@ == joined(self.thumbnails@, path@),
    {
        join(self.thumbnails.as_str(), path)
    }
}

} // verus!
