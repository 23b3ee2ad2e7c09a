//! The texture catalog rows and the thumbnail-name arithmetic: an `eps`
//! texture is thumbnailed as a `jpg`, every other file under its own
//! name. Walking the texture tree happens outside the library.

use vstd::prelude::*;

use crate::bytes::{bytes_text, sub_vec, text_of};
use crate::keys::spec_lower;
use crate::textutil::{ext_of, file_name, spec_ext_of, spec_file_name};
use vstd::string::StringExecFns;
use vstd::string::StringSliceAdditionalSpecFns;

verus! {

/// One texture row: its database id, its category (the folder it sits
/// in), its file name and absolute path, its thumbnail name, and its
/// favorite flag.
#[derive(Debug, PartialEq, Eq)]
pub struct Texture {
    pub id: Option<i64>,
    pub category: Option<String>,
    pub filename: Option<String>,
    pub abs_path: Option<String>,
    pub thumbnail: Option<String>,
    pub favorite: Option<i32>,
}

/// Whether a path's last component carries an `eps` extension, compared
/// case-insensitively.
pub open spec fn spec_is_eps(b: Seq<u8>) -> bool {
    match spec_ext_of(spec_file_name(b)) {
        Some(e) => spec_lower(e) == "eps".spec_bytes(),
        None => false,
    }
}

/// The thumbnail name of a texture file: an `eps` file maps to the same
/// path with a `jpg` extension, any other file to itself.
pub open spec fn spec_thumbnail_name(b: Seq<u8>) -> Seq<char> {
    if spec_is_eps(b) {
        text_of(b.take(b.len() - 3) + "jpg".spec_bytes())
    } else {
        text_of(b)
    }
}

/// The texture scanner; the walk itself hands file names in from
/// outside, and these helpers do the name arithmetic.
#[derive(Debug)]
pub struct TextureScanner;

impl TextureScanner {
    /// The thumbnail name of a texture file, as `spec_thumbnail_name`
    /// describes on its UTF-8 bytes.
    pub fn thumbnail_name(filename: &str) -> (r: String)
        ensures
            r@ == spec_thumbnail_name(filename.spec_bytes()),
    {
        let bytes = filename.as_bytes();
        let ghost s = filename.spec_bytes();
        let name = file_name(filename);
        let is_eps: bool;
        match ext_of(name.as_slice()) {
            Some(e) => {
                is_eps = crate::textutil::bytes_eq_nocase(e.as_slice(), "eps".as_bytes());
                proof {
                    assert(spec_lower("eps".spec_bytes()) =~= "eps".spec_bytes()) by {
                        reveal_strlit("eps");
                        vstd::string::is_ascii_spec_bytes("eps");
                        assert("eps".is_ascii());
                        assert("eps".spec_bytes() =~= seq![101u8, 112u8, 115u8]);
                    }
                    assert(is_eps == spec_is_eps(s));
                }
            },
            None => {
                is_eps = false;
            },
        }
        if is_eps {
            proof {
                lemma_eps_ext_len(s);
            }
            let n = bytes.len();
            let mut out = sub_vec(bytes, 0, n - 3);
            out.push(106);
            out.push(112);
            out.push(103);
            proof {
                reveal_strlit("jpg");
                vstd::string::is_ascii_spec_bytes("jpg");
                assert("jpg".is_ascii());
                assert("jpg".spec_bytes() =~= seq![106u8, 112u8, 103u8]);
                assert(out@ =~= s.take(s.len() - 3) + "jpg".spec_bytes());
            }
            bytes_text(out)
        } else {
            proof {
                vstd::utf8::encode_utf8_valid_utf8(filename@);
                vstd::utf8::encode_utf8_decode_utf8(filename@);
            }
            filename.to_owned()
        }
    }

    /// The thumbnail's path: the hidden thumbnail folder under the root,
    /// then the thumbnail name.
    pub fn thumbnail_path(root_dir: &str, filename: &str) -> (r: String)
        ensures
            r@ == root_dir@ + "/.thumbnail/"@ + spec_thumbnail_name(filename.spec_bytes()),
    {
        let name = Self::thumbnail_name(filename);
        let mut out = root_dir.to_owned();
        out.append("/.thumbnail/");
        out.append(name.as_str());
        out
    }
}

/// A file whose last component ends in a three-byte extension keeps that
/// extension in its last three bytes.
proof fn lemma_eps_ext_len(b: Seq<u8>)
    requires
        spec_is_eps(b),
    ensures
        b.len() >= 4,
{
    let name = spec_file_name(b);
    crate::textutil::lemma_rfind2_bounds(b, 47, 92, b.len() as int);
    match crate::textutil::spec_rfind2(name, 46, 46, name.len() as int) {
        Some(p) => {
            crate::textutil::lemma_rfind2_bounds(name, 46, 46, name.len() as int);
            let e = name.skip(p + 1);
            assert(spec_lower(e).len() == e.len());
            assert("eps".spec_bytes().len() == 3) by {
                reveal_strlit("eps");
                vstd::string::is_ascii_spec_bytes("eps");
                assert("eps".is_ascii());
            }
        },
        None => {},
    }
}

} // verus!
