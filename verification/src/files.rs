//! Where static files and images are found on disk, and where uploaded
//! images go.
use vstd::prelude::*;
use vstd::string::*;

verus! {

/// The directory of the static files (style sheets, scripts).
pub open spec fn static_dir() -> Seq<char> {
    seq!['s', 't', 'a', 't', 'i', 'c', '/']
}

/// The directory of the images.
pub open spec fn images_dir() -> Seq<char> {
    seq!['i', 'm', 'a', 'g', 'e', 's', '/']
}

/// `base` joined with `rel` as `Path::join` does on Unix: an absolute `rel`
/// replaces `base`; otherwise `rel` follows `base`, with a `/` between them
/// unless `base` is empty or already ends with one.
pub open spec fn join_path(base: Seq<char>, rel: Seq<char>) -> Seq<char> {
    if rel.len() > 0 && rel[0] == '/' {
        rel
    } else if base.len() == 0 || base.last() == '/' {
        base + rel
    } else {
        base + seq!['/'] + rel
    }
}

/// Joins two paths (see `join_path`).
pub fn join(base: &str, rel: &str) -> (r: String)
    ensures
        r@ == join_path(base@, rel@),
{
    if rel.unicode_len() > 0 && rel.get_char(0) == '/' {
        return String::from_str(rel);
    }
    let mut r = String::from_str(base);
    let n = base.unicode_len();
    if n > 0 && base.get_char(n - 1) != '/' {
        proof {
            reveal_strlit("/");
        }
        r.append("/");
    }
    r.append(rel);
    r
}

/// The file to serve for a request under `/files/`: the requested path
/// inside the static directory.
pub fn files(file: &str) -> (r: String)
    ensures
        r@ == join_path(static_dir(), file@),
{
    proof {
        reveal_strlit("static/");
    }
    join("static/", file)
}

/// The file to serve for a request under `/images/`: the requested path
/// inside the images directory.
pub fn images(file: &str) -> (r: String)
    ensures
        r@ == join_path(images_dir(), file@),
{
    proof {
        reveal_strlit("images/");
    }
    join("images/", file)
}

/// Joining keeps both parts: an absolute path stands alone; otherwise the
/// result starts with the base and ends with the relative path, with at
/// most one character between them, and a non-empty base is followed by a
/// `/` (its own or one added).
pub proof fn lemma_join_keeps_both(base: Seq<char>, rel: Seq<char>)
    ensures
        rel.len() > 0 && rel[0] == '/' ==> join_path(base, rel) == rel,
        !(rel.len() > 0 && rel[0] == '/') ==> {
            let j = join_path(base, rel);
            &&& j.subrange(0, base.len() as int) == base
            &&& j.subrange(j.len() - rel.len(), j.len() as int) == rel
            &&& base.len() + rel.len() <= j.len() <= base.len() + rel.len() + 1
            &&& base.len() > 0 ==> (j[base.len() - 1] == '/' || j[base.len() as int] == '/')
        },
{
    if !(rel.len() > 0 && rel[0] == '/') {
        let j = join_path(base, rel);
        assert(j.subrange(0, base.len() as int) =~= base);
        assert(j.subrange(j.len() - rel.len(), j.len() as int) =~= rel);
    }
}

/// A requested path that is not absolute is served from inside the static
/// directory (and likewise for images).
pub proof fn lemma_relative_paths_stay_inside(file: Seq<char>)
    requires
        !(file.len() > 0 && file[0] == '/'),
    ensures
        join_path(static_dir(), file).subrange(0, 7) == static_dir(),
        join_path(images_dir(), file).subrange(0, 7) == images_dir(),
{
    assert(join_path(static_dir(), file).subrange(0, 7) =~= static_dir());
    assert(join_path(images_dir(), file).subrange(0, 7) =~= images_dir());
}

/// Where an uploaded image is written, and the address it is served at.
pub struct ImageUpload {
    /// The file to write, relative to the site's working directory.
    pub path: String,
    /// The address answered to the uploader.
    pub url: String,
}

/// Places an uploaded image with the file name the uploader sent: the
/// file name is appended to the images directory as it is, and the image is
/// served at that path below the site's root.
pub fn upload_image(filename: &str) -> (r: ImageUpload)
    ensures
        r.path@ == images_dir() + filename@,
        r.url@ == seq!['/'] + images_dir() + filename@,
{
    proof {
        reveal_strlit("images/");
        reveal_strlit("/");
    }
    let mut path = String::from_str("images/");
    path.append(filename);
    let mut url = String::from_str("/");
    url.append(path.as_str());
    proof {
        assert(url@ =~= seq!['/'] + images_dir() + filename@);
    }
    ImageUpload { path, url }
}

} // verus!
