//! The tags that the container format gives a meaning to, and tags given as text.

use vstd::prelude::*;
use crate::bytes::FourCC;
use vstd::string::{is_ascii, StringSliceAdditionalSpecFns, StringExecFns};

verus! {

/// `RIFX` as stored by a big-endian file.
pub open spec fn rifx_spec() -> FourCC {
    [0x52u8, 0x49u8, 0x46u8, 0x58u8]
}

/// `XFIR`: the magic of a little-endian file.
pub open spec fn xfir_spec() -> FourCC {
    [0x58u8, 0x46u8, 0x49u8, 0x52u8]
}

/// `sndH`: the type of a sound-header chunk.
pub open spec fn sndh_spec() -> FourCC {
    [0x73u8, 0x6eu8, 0x64u8, 0x48u8]
}

/// The magic of a big-endian file.
pub fn rifx() -> (t: FourCC)
    ensures
        t == rifx_spec(),
{
    [0x52u8, 0x49u8, 0x46u8, 0x58u8]
}

/// The magic of a little-endian file.
pub fn xfir() -> (t: FourCC)
    ensures
        t == xfir_spec(),
{
    [0x58u8, 0x46u8, 0x49u8, 0x52u8]
}

/// The type tag of a sound-header chunk.
pub fn sndh() -> (t: FourCC)
    ensures
        t == sndh_spec(),
{
    [0x73u8, 0x6eu8, 0x64u8, 0x48u8]
}

/// Whether two tags hold the same bytes.
pub fn same_tag(a: &FourCC, b: &FourCC) -> (r: bool)
    ensures
        r == (*a == *b),
{
    let r = a[0] == b[0] && a[1] == b[1] && a[2] == b[2] && a[3] == b[3];
    proof {
        vstd::array::axiom_array_ext_equal(*a, *b);
        if r {
            assert(a@ =~= b@);
        } else {
            assert(a@ != b@);
        }
    }
    r
}

/// The message that rejects `arg` as a tag.
pub open spec fn bad_tag_message(arg: Seq<char>) -> Seq<char> {
    "'"@ + arg + "' is not 4 bytes long / is not ASCII."@
}

/// Reads a tag given as text: it must be four ASCII characters.
pub fn convert_fourcc(arg: &str) -> (r: Result<FourCC, String>)
    ensures
        arg.spec_bytes().len() == 4 && is_ascii(arg) ==> (r matches Ok(t)
            && t@ == arg.spec_bytes()),
        !(arg.spec_bytes().len() == 4 && is_ascii(arg)) ==> (r matches Err(m)
            && m@ == bad_tag_message(arg@)),
{
    if arg.len() != 4 || !arg.is_ascii() {
        let mut m = String::from_str("'");
        m.append(arg);
        m.append("' is not 4 bytes long / is not ASCII.");
        proof {
            reveal_strlit("'");
        }
        assert(m@ =~= bad_tag_message(arg@));
        Err(m)
    } else {
        let b = arg.as_bytes();
        let t: FourCC = [b[0], b[1], b[2], b[3]];
        assert(t@ =~= arg.spec_bytes());
        Ok(t)
    }
}

} // verus!
