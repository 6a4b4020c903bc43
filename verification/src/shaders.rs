//! Which files of the shader directory get compiled, and to what target
//! profile. A shader source is a file (not a directory) whose name ends in
//! `.hlsl`; its stem both names the shader and carries, in its last two
//! bytes, the shader-kind tag that the compile target profile is built from.
//!
//! File names are handled as their bytes, which matches the directory scan
//! for the ASCII names it works with.

use vstd::prelude::*;

verus! {

/// ASCII code points the scan compares against.
pub const DOT: u8 = 46;
pub const LOWER_H: u8 = 104;
pub const LOWER_L: u8 = 108;
pub const LOWER_S: u8 = 115;
pub const UPPER_A: u8 = 65;
pub const UPPER_Z: u8 = 90;
pub const UNDERSCORE: u8 = 95;
pub const DIGIT_SIX: u8 = 54;

/// `i` splits `name` into stem and extension: the final dot, as long as it
/// is not the leading byte (a name that is nothing but a leading dot and an
/// extensionless tail has no extension).
pub open spec fn is_ext_split(name: Seq<u8>, i: int) -> bool {
    &&& 0 < i < name.len()
    &&& name[i] == DOT
    &&& forall|j: int| i < j < name.len() ==> name[j] != DOT
}

pub open spec fn has_extension(name: Seq<u8>) -> bool {
    exists|i: int| is_ext_split(name, i)
}

pub open spec fn ext_split(name: Seq<u8>) -> int {
    choose|i: int| is_ext_split(name, i)
}

/// The bytes after the final dot.
pub open spec fn extension_of(name: Seq<u8>) -> Seq<u8>
    recommends
        has_extension(name),
{
    name.subrange(ext_split(name) + 1, name.len() as int)
}

/// The name without its extension; a name without one keeps every byte.
pub open spec fn stem_of(name: Seq<u8>) -> Seq<u8> {
    if has_extension(name) {
        name.subrange(0, ext_split(name))
    } else {
        name
    }
}

/// The extension that marks a shader source.
pub open spec fn hlsl_ext() -> Seq<u8> {
    seq![LOWER_H, LOWER_L, LOWER_S, LOWER_L]
}

pub open spec fn ascii_lower_byte(b: u8) -> u8 {
    if UPPER_A <= b && b <= UPPER_Z {
        (b + 32) as u8
    } else {
        b
    }
}

pub open spec fn is_ascii(s: Seq<u8>) -> bool {
    forall|i: int| 0 <= i < s.len() ==> s[i] < 128
}

/// The last two bytes of a stem name the shader kind (vertex, pixel, ...).
pub open spec fn shader_kind_tag(stem: Seq<u8>) -> Seq<u8>
    recommends
        stem.len() >= 2,
{
    stem.subrange(stem.len() - 2, stem.len() as int)
}

/// The compile target profile for a shader-kind tag: the tag lowercased,
/// then an underscore-joined shader model six-point-six suffix.
pub open spec fn target_profile(tag: Seq<u8>) -> Seq<u8> {
    tag.map_values(|b: u8| ascii_lower_byte(b)) + seq![UNDERSCORE, DIGIT_SIX, UNDERSCORE, DIGIT_SIX]
}

/// A name has at most one stem/extension split.
proof fn lemma_ext_split_unique(name: Seq<u8>, i: int, j: int)
    requires
        is_ext_split(name, i),
        is_ext_split(name, j),
    ensures
        i == j,
{
    if i < j {
        assert(name[j] != DOT);
    }
    if j < i {
        assert(name[i] != DOT);
    }
}

/// The index of the final dot, skipping a leading one; `None` when the name
/// has no extension.
fn find_ext_split(name: &Vec<u8>) -> (r: Option<usize>)
    ensures
        match r {
            Some(i) => is_ext_split(name@, i as int),
            None => !has_extension(name@),
        },
{
    let n: usize = name.len();
    let mut j: usize = n;
    while j > 1
        invariant
            j <= n,
            n == name@.len(),
            forall|k: int| j <= k < n ==> name@[k] != DOT,
        decreases j,
    {
        j = j - 1;
        if name[j] == DOT {
            return Some(j);
        }
    }
    proof {
        assert forall|i: int| !is_ext_split(name@, i) by {
            if 0 < i < name@.len() {
                assert(name@[i] != DOT);
            }
        }
    }
    None
}

/// Whether one directory entry is a shader source: a file, not a directory,
/// whose extension is exactly the shader extension.
pub fn is_hlsl_source(name: &Vec<u8>, is_dir: bool) -> (r: bool)
    ensures
        r == (!is_dir && has_extension(name@) && extension_of(name@) == hlsl_ext()),
{
    if is_dir {
        return false;
    }
    match find_ext_split(name) {
        None => false,
        Some(i) => {
            proof {
                lemma_ext_split_unique(name@, i as int, ext_split(name@));
                assert(ext_split(name@) == i as int);
            }
            let n: usize = name.len();
            if n - i - 1 != 4 {
                proof {
                    assert(extension_of(name@).len() != hlsl_ext().len());
                }
                false
            } else {
                let matches_ext: bool = name[i + 1] == LOWER_H && name[i + 2] == LOWER_L
                    && name[i + 3] == LOWER_S && name[i + 4] == LOWER_L;
                proof {
                    if matches_ext {
                        assert(extension_of(name@) =~= hlsl_ext());
                    } else {
                        assert(extension_of(name@) != hlsl_ext());
                    }
                }
                matches_ext
            }
        },
    }
}

/// The name without its extension.
pub fn file_stem(name: &Vec<u8>) -> (r: Vec<u8>)
    ensures
        r@ == stem_of(name@),
{
    let end: usize = match find_ext_split(name) {
        Some(i) => {
            proof {
                lemma_ext_split_unique(name@, i as int, ext_split(name@));
            }
            i
        },
        None => name.len(),
    };
    let mut out: Vec<u8> = Vec::new();
    let mut k: usize = 0;
    while k < end
        invariant
            k <= end,
            end <= name@.len(),
            out@ == name@.subrange(0, k as int),
        decreases end - k,
    {
        out.push(name[k]);
        proof {
            assert(out@ =~= name@.subrange(0, k + 1 as int));
        }
        k = k + 1;
    }
    proof {
        if !has_extension(name@) {
            assert(name@.subrange(0, name@.len() as int) =~= name@);
        }
    }
    out
}

fn lower_byte(b: u8) -> (r: u8)
    ensures
        r == ascii_lower_byte(b),
{
    if UPPER_A <= b && b <= UPPER_Z {
        b + 32
    } else {
        b
    }
}

/// The target profile for a stem: its trailing shader-kind tag, lowercased,
/// then the shader-model suffix.
pub fn profile_for_stem(stem: &Vec<u8>) -> (r: Vec<u8>)
    requires
        stem@.len() >= 2,
    ensures
        r@ == target_profile(shader_kind_tag(stem@)),
{
    let n: usize = stem.len();
    let mut out: Vec<u8> = Vec::new();
    out.push(lower_byte(stem[n - 2]));
    out.push(lower_byte(stem[n - 1]));
    out.push(UNDERSCORE);
    out.push(DIGIT_SIX);
    out.push(UNDERSCORE);
    out.push(DIGIT_SIX);
    proof {
        assert(out@ =~= target_profile(shader_kind_tag(stem@)));
    }
    out
}

/// One directory entry's decision in the shader scan. `None` for a directory
/// or for a file that is not a shader source; otherwise the compile request:
/// the stem, which names the shader, and the target profile built from the
/// stem's trailing kind tag.
///
/// Works on the ASCII names the shader directory holds; a shader source's
/// stem must be at least the two tag bytes long.
pub fn shader_compile_request(name: &Vec<u8>, is_dir: bool) -> (r: Option<(Vec<u8>, Vec<u8>)>)
    requires
        is_ascii(name@),
        (!is_dir && has_extension(name@) && extension_of(name@) == hlsl_ext())
            ==> stem_of(name@).len() >= 2,
    ensures
        match r {
            Some(req) => !is_dir && has_extension(name@) && extension_of(name@) == hlsl_ext()
                && req.0@ == stem_of(name@)
                && req.1@ == target_profile(shader_kind_tag(stem_of(name@))),
            None => is_dir || !has_extension(name@) || extension_of(name@) != hlsl_ext(),
        },
{
    if !is_hlsl_source(name, is_dir) {
        return None;
    }
    let stem = file_stem(name);
    let profile = profile_for_stem(&stem);
    Some((stem, profile))
}

} // verus!
