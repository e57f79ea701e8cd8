//! Platform-independent pieces of volume detection: size parsing, filesystem
//! classification and the interpretation of what the OS reports.
use vstd::prelude::*;
use vstd::string::*;
use crate::text::{contains_seq, contains_str, str_eq};
use crate::types::DiskType;

verus! {

/// What `str::to_lowercase` makes of a string.
pub uninterp spec fn lower_of(s: Seq<char>) -> Seq<char>;

/// Relies on `str::to_lowercase`: the lowercase mapping of the characters,
/// which depends on them alone; the empty string stays empty.
#[verifier::external_body]
pub(crate) fn lowercase(s: &str) -> (r: String)
    ensures
        r@ == lower_of(s@),
        s@.len() == 0 ==> r@.len() == 0,
{
    s.to_lowercase()
}

} // verus!

verus! {

/// Whether `c` is an ASCII decimal digit.
pub open spec fn is_digit(c: char) -> bool {
    '0' <= c && c <= '9'
}

/// The decimal digits of `s`, in order.
pub open spec fn digits_of(s: Seq<char>) -> Seq<char>
    decreases s.len(),
{
    if s.len() == 0 {
        Seq::empty()
    } else if is_digit(s.last()) {
        digits_of(s.drop_last()).push(s.last())
    } else {
        digits_of(s.drop_last())
    }
}

/// The number that a sequence of decimal digits denotes.
pub open spec fn decimal_value(ds: Seq<char>) -> nat
    decreases ds.len(),
{
    if ds.len() == 0 {
        0
    } else {
        decimal_value(ds.drop_last()) * 10 + (ds.last() as nat - '0' as nat) as nat
    }
}

/// The size that a string denotes: the number written by its decimal digits,
/// all other characters left out; 0 where it has no digit or the number does
/// not fit in 64 bits.
pub open spec fn size_of(s: Seq<char>) -> u64 {
    let ds = digits_of(s);
    if ds.len() == 0 || decimal_value(ds) > u64::MAX {
        0
    } else {
        decimal_value(ds) as u64
    }
}

/// Reads a size such as "512000" or "1,024 bytes" from its decimal digits.
pub fn parse_size(size_str: &str) -> (r: u64)
    ensures
        r == size_of(size_str@),
{
    let ghost s = size_str@;
    let n = size_str.unicode_len();
    let mut acc: u64 = 0;
    let mut overflow = false;
    let mut count: usize = 0;
    let mut i: usize = 0;
    while i < n
        invariant
            n == s.len(),
            s == size_str@,
            i <= n,
            count as int == digits_of(s.subrange(0, i as int)).len(),
            count <= i,
            overflow ==> decimal_value(digits_of(s.subrange(0, i as int))) > u64::MAX,
            !overflow ==> acc as nat == decimal_value(digits_of(s.subrange(0, i as int))),
        decreases n - i,
    {
        let c = size_str.get_char(i);
        assert(s.subrange(0, i + 1).drop_last() =~= s.subrange(0, i as int));
        assert(s.subrange(0, i + 1).last() == c);
        if '0' <= c && c <= '9' {
            let dv = (c as u32 - '0' as u32) as u64;
            let ghost ds = digits_of(s.subrange(0, i as int));
            assert(digits_of(s.subrange(0, i + 1)) == ds.push(c));
            assert(ds.push(c).drop_last() =~= ds);
            assert(decimal_value(ds.push(c)) == decimal_value(ds) * 10 + dv);
            count = count + 1;
            if !overflow {
                match acc.checked_mul(10) {
                    Some(m) => match m.checked_add(dv) {
                        Some(v) => {
                            acc = v;
                        },
                        None => {
                            overflow = true;
                        },
                    },
                    None => {
                        overflow = true;
                    },
                }
            }
        } else {
            assert(digits_of(s.subrange(0, i + 1)) == digits_of(s.subrange(0, i as int)));
        }
        i = i + 1;
    }
    assert(s.subrange(0, n as int) =~= s);
    if count == 0 || overflow {
        0
    } else {
        acc
    }
}

/// Filesystems that hold no stored data: memory, devices, kernel state.
pub open spec fn is_virtual_name(lowered: Seq<char>) -> bool {
    lowered == "devfs"@ || lowered == "sysfs"@ || lowered == "proc"@ || lowered == "tmpfs"@
        || lowered == "ramfs"@ || lowered == "devtmpfs"@
}

/// Whether an already lowercased filesystem name is a virtual one.
pub fn is_virtual_lowered(lowered: &str) -> (r: bool)
    ensures
        r == is_virtual_name(lowered@),
{
    str_eq(lowered, "devfs") || str_eq(lowered, "sysfs") || str_eq(lowered, "proc") || str_eq(
        lowered,
        "tmpfs",
    ) || str_eq(lowered, "ramfs") || str_eq(lowered, "devtmpfs")
}

/// Whether a filesystem name, in any case, names a virtual filesystem.
pub fn is_virtual_filesystem(fs: &str) -> (r: bool)
    ensures
        r == is_virtual_name(lower_of(fs@)),
{
    let lowered = lowercase(fs);
    is_virtual_lowered(lowered.as_str())
}

/// Mount options that mark a read-only mount.
pub open spec fn read_only_options(options: Seq<char>) -> bool {
    contains_seq(options, "ro,"@) || contains_seq(options, ",ro"@) || contains_seq(
        options,
        "ro "@,
    )
}

/// Whether a mount's option list, as the mount table prints it, makes it
/// read-only.
pub fn is_read_only_options(options: &str) -> (r: bool)
    ensures
        r == read_only_options(options@),
{
    contains_str(options, "ro,") || contains_str(options, ",ro") || contains_str(options, "ro ")
}

/// What `str::trim` makes of a string.
pub uninterp spec fn trim_of(s: Seq<char>) -> Seq<char>;

/// Relies on `str::trim`: the string without leading and trailing white
/// space, which depends on the characters alone.
#[verifier::external_body]
fn trim(s: &str) -> (r: &str)
    ensures
        r@ == trim_of(s@),
{
    s.trim()
}

/// The media kind that a block device's rotational flag gives, once trimmed.
pub open spec fn disk_type_of_flag(flag: Seq<char>) -> DiskType {
    if flag == "0"@ {
        DiskType::SSD
    } else if flag == "1"@ {
        DiskType::HDD
    } else {
        DiskType::Unknown
    }
}

/// Classifies a trimmed rotational flag: "0" is solid state, "1" spinning.
pub fn disk_type_from_flag(flag: &str) -> (r: DiskType)
    ensures
        r == disk_type_of_flag(flag@),
{
    if str_eq(flag, "0") {
        DiskType::SSD
    } else if str_eq(flag, "1") {
        DiskType::HDD
    } else {
        DiskType::Unknown
    }
}

/// Classifies the contents of a block device's rotational flag file.
pub fn disk_type_from_rotational(contents: &str) -> (r: DiskType)
    ensures
        r == disk_type_of_flag(trim_of(contents@)),
{
    disk_type_from_flag(trim(contents))
}

} // verus!
