//! Filesystem layout shared by the two services.
//!
//! Source images live at `<root>/<project_id>/<image_id>.<ext>`; versions at
//! `<root>/<project_id>/output/<original_image_id>/<version_id>.png`. Paths
//! are plain strings built from the root and the ids' canonical text.

use crate::ids::{id_chars, id_str};
use crate::json::{append_lit, append_range};
use vstd::prelude::*;

verus! {

broadcast use crate::text::lemma_concat_assoc;

/// The `output` folder of a project: `<root>/<project_id>/output`.
pub open spec fn folder_uri_str(root: Seq<char>, project: u128) -> Seq<char> {
    root + "/"@ + id_str(project) + "/output"@
}

/// The file of one image version:
/// `<root>/<project_id>/output/<original_image_id>/<version_id>.png`.
pub open spec fn version_output_uri_str(
    root: Seq<char>,
    project: u128,
    original: u128,
    version: u128,
) -> Seq<char> {
    folder_uri_str(root, project) + "/"@ + id_str(original) + "/"@ + id_str(version) + ".png"@
}

/// Appends the canonical text of `u` to `out`.
pub fn append_id(out: &mut Vec<char>, u: u128)
    ensures
        final(out)@ == old(out)@ + id_str(u),
{
    let cs = id_chars(u);
    append_range(out, &cs, 0, cs.len());
    proof {
        assert(cs@.subrange(0, cs@.len() as int) =~= id_str(u));
    }
}

/// The `output` folder of a project's image versions.
pub fn generate_image_version_folder_uri(image_root: &str, project_uuid: u128) -> (r: String)
    ensures
        r@ == folder_uri_str(image_root@, project_uuid),
{
    let mut out: Vec<char> = Vec::new();
    append_lit(&mut out, image_root);
    append_lit(&mut out, "/");
    append_id(&mut out, project_uuid);
    append_lit(&mut out, "/output");
    crate::text::chars_to_string(&out)
}

/// The file path of one image version.
pub fn generate_image_version_output_uri(
    image_root: &str,
    project_uuid: u128,
    original_image_uuid: u128,
    new_image_uuid: u128,
) -> (r: String)
    ensures
        r@ == version_output_uri_str(
            image_root@,
            project_uuid,
            original_image_uuid,
            new_image_uuid,
        ),
{
    let mut out: Vec<char> = Vec::new();
    append_lit(&mut out, image_root);
    append_lit(&mut out, "/");
    append_id(&mut out, project_uuid);
    append_lit(&mut out, "/output");
    append_lit(&mut out, "/");
    append_id(&mut out, original_image_uuid);
    append_lit(&mut out, "/");
    append_id(&mut out, new_image_uuid);
    append_lit(&mut out, ".png");
    crate::text::chars_to_string(&out)
}

/// The extension of a file name: what follows the last dot, empty when the
/// name has no dot.
pub open spec fn extension_of(name: Seq<char>) -> Seq<char>
    decreases name.len(),
{
    if name.len() == 0 {
        Seq::empty()
    } else if name.last() == '.' {
        Seq::empty()
    } else {
        let rest = extension_of(name.drop_last());
        if has_dot(name.drop_last()) {
            rest.push(name.last())
        } else {
            rest
        }
    }
}

/// Whether any character of `s` is a dot.
pub open spec fn has_dot(s: Seq<char>) -> bool {
    exists|i: int| 0 <= i < s.len() && s[i] == '.'
}

/// The suffix of `name` after its last dot; empty without a dot.
fn extension_chars(name: &Vec<char>) -> (r: Vec<char>)
    ensures
        r@ == extension_of(name@),
{
    let mut dot: Option<usize> = None;
    let mut i: usize = 0;
    while i < name.len()
        invariant
            i <= name@.len(),
            match dot {
                Some(d) => d < i && name@[d as int] == '.' && (forall|j: int|
                    d < j < i ==> name@[j] != '.'),
                None => forall|j: int| 0 <= j < i ==> name@[j] != '.',
            },
        decreases name@.len() - i,
    {
        if name[i] == '.' {
            dot = Some(i);
        }
        i = i + 1;
    }
    let mut r: Vec<char> = Vec::new();
    match dot {
        None => {
            proof {
                lemma_extension_no_dot(name@);
            }
        },
        Some(d) => {
            let mut k: usize = d + 1;
            while k < name.len()
                invariant
                    d < k <= name@.len(),
                    name@[d as int] == '.',
                    forall|j: int| d < j < name@.len() ==> name@[j] != '.',
                    r@ == name@.subrange(d + 1, k as int),
                decreases name@.len() - k,
            {
                r.push(name[k]);
                k = k + 1;
                proof {
                    assert(r@ =~= name@.subrange(d + 1, k as int));
                }
            }
            proof {
                lemma_extension_after_dot(name@, d as int);
            }
        },
    }
    r
}

/// Without a dot anywhere, the extension is empty.
proof fn lemma_extension_no_dot(name: Seq<char>)
    requires
        forall|j: int| 0 <= j < name.len() ==> name[j] != '.',
    ensures
        extension_of(name) == Seq::<char>::empty(),
    decreases name.len(),
{
    if name.len() > 0 {
        lemma_extension_no_dot(name.drop_last());
        assert(!has_dot(name.drop_last()));
    }
}

/// With the last dot at `d`, the extension is what follows it.
proof fn lemma_extension_after_dot(name: Seq<char>, d: int)
    requires
        0 <= d < name.len(),
        name[d] == '.',
        forall|j: int| d < j < name.len() ==> name[j] != '.',
    ensures
        extension_of(name) == name.subrange(d + 1, name.len() as int),
    decreases name.len(),
{
    if d == name.len() - 1 {
        assert(extension_of(name) =~= name.subrange(d + 1, name.len() as int));
    } else {
        lemma_extension_after_dot(name.drop_last(), d);
        assert(has_dot(name.drop_last()));
        assert(extension_of(name) =~= name.subrange(d + 1, name.len() as int));
    }
}

/// The path of a source image: `<root>/<project_id>/<image_id>` with the
/// extension taken from the image's name, dot omitted when there is none.
pub open spec fn image_uri_str(
    root: Seq<char>,
    project: u128,
    image: u128,
    name: Seq<char>,
) -> Seq<char> {
    let base = root + "/"@ + id_str(project) + "/"@ + id_str(image);
    let ext = extension_of(name);
    if ext.len() == 0 {
        base
    } else {
        base + seq!['.'] + ext
    }
}

/// The file path of a source image.
pub fn generate_image_uri(
    image_root: &str,
    project_uuid: u128,
    image_uuid: u128,
    image_name: &str,
) -> (r: String)
    ensures
        r@ == image_uri_str(image_root@, project_uuid, image_uuid, image_name@),
{
    let mut out: Vec<char> = Vec::new();
    append_lit(&mut out, image_root);
    append_lit(&mut out, "/");
    append_id(&mut out, project_uuid);
    append_lit(&mut out, "/");
    append_id(&mut out, image_uuid);
    let name_chars = crate::text::str_to_chars(image_name);
    let ext = extension_chars(&name_chars);
    if ext.len() > 0 {
        out.push('.');
        append_range(&mut out, &ext, 0, ext.len());
        proof {
            assert(ext@.subrange(0, ext@.len() as int) =~= ext@);
        }
    }
    proof {
        assert(out@ =~= image_uri_str(image_root@, project_uuid, image_uuid, image_name@));
    }
    crate::text::chars_to_string(&out)
}

/// Case-insensitive match of one character against a lowercase letter or dot.
pub open spec fn eq_ci(c: char, l: char) -> bool {
    c == l || c as u32 == l as u32 - 32
}

/// Whether `s` ends with `suf`, letters compared without case.
pub open spec fn suffix_ci(s: Seq<char>, suf: Seq<char>) -> bool {
    s.len() >= suf.len() && forall|i: int|
        0 <= i < suf.len() ==> eq_ci(s[s.len() - suf.len() + i], #[trigger] suf[i])
}

/// Whether a file name carries one of the supported image extensions.
pub open spec fn is_image_name(s: Seq<char>) -> bool {
    ||| suffix_ci(s, ".png"@)
    ||| suffix_ci(s, ".jpg"@)
    ||| suffix_ci(s, ".jpeg"@)
    ||| suffix_ci(s, ".gif"@)
    ||| suffix_ci(s, ".bmp"@)
    ||| suffix_ci(s, ".tiff"@)
    ||| suffix_ci(s, ".webp"@)
}

/// Whether `v` ends with `suf`, letters compared without case.
fn ends_with_ci(v: &Vec<char>, suf: &str) -> (r: bool)
    ensures
        r == suffix_ci(v@, suf@),
{
    let sc = crate::text::str_to_chars(suf);
    if v.len() < sc.len() {
        return false;
    }
    let off = v.len() - sc.len();
    let mut i: usize = 0;
    while i < sc.len()
        invariant
            v@.len() >= sc@.len(),
            v@.len() <= usize::MAX,
            off == v@.len() - sc@.len(),
            sc@ == suf@,
            i <= sc@.len(),
            forall|j: int| 0 <= j < i ==> eq_ci(v@[off + j], #[trigger] sc@[j]),
        decreases sc@.len() - i,
    {
        let c = v[off + i];
        let l = sc[i];
        let matched = c == l || (l as u32 >= 32 && c as u32 == l as u32 - 32);
        proof {
            assert(matched == eq_ci(v@[off + i], sc@[i as int]));
        }
        if !matched {
            return false;
        }
        i = i + 1;
    }
    true
}

/// Whether `file_name` carries one of the supported image extensions
/// (png, jpg, jpeg, gif, bmp, tiff, webp), compared without case.
pub fn is_image_file(file_name: &str) -> (r: bool)
    ensures
        r == is_image_name(file_name@),
{
    let v = crate::text::str_to_chars(file_name);
    ends_with_ci(&v, ".png") || ends_with_ci(&v, ".jpg") || ends_with_ci(&v, ".jpeg")
        || ends_with_ci(&v, ".gif") || ends_with_ci(&v, ".bmp") || ends_with_ci(&v, ".tiff")
        || ends_with_ci(&v, ".webp")
}

} // verus!
