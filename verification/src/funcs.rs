//! Free helper functions: the classic word-packing macros, the parser
//! of nul-separated string blocks, and the version-comparison logic,
//! all expressed over plain values.
//!
//! The version comparison works against an explicitly supplied version
//! block standing for the running system's version, so the whole
//! decision — which fields take part, which condition each slot holds,
//! how the hierarchy of version numbers is walked — is stated and
//! proved here.

#![allow(non_snake_case)]

use vstd::prelude::*;

use crate::co;
use crate::co::{ERROR, VER_COND, VER_MASK};
use crate::structs::OSVERSIONINFOEX;

verus! {

/// Returns the high-order byte of a 16-bit value. Originally a macro.
pub fn HIBYTE(v: u16) -> (r: u8)
    ensures
        r == v / 0x100,
{
    proof {
        assert(v >> 8u16 == v / 0x100) by (bit_vector);
    }
    (v >> 8u16) as u8
}

/// Returns the low-order byte of a 16-bit value. Originally a macro.
pub fn LOBYTE(v: u16) -> (r: u8)
    ensures
        r == v % 0x100,
{
    proof {
        assert(v & 0xff == v % 0x100) by (bit_vector);
    }
    (v & 0xff) as u8
}

/// Returns the high-order word of a 32-bit value. Originally a macro.
pub fn HIWORD(v: u32) -> (r: u16)
    ensures
        r == v / 0x1_0000,
{
    proof {
        assert(v >> 16u32 == v / 0x1_0000) by (bit_vector);
    }
    (v >> 16u32) as u16
}

/// Returns the low-order word of a 32-bit value. Originally a macro.
pub fn LOWORD(v: u32) -> (r: u16)
    ensures
        r == v % 0x1_0000,
{
    proof {
        assert(v & 0xffff == v % 0x1_0000) by (bit_vector);
    }
    (v & 0xffff) as u16
}

/// Returns the high-order `u32` of an `u64`.
pub fn HIDWORD(v: u64) -> (r: u32)
    ensures
        r == v / 0x1_0000_0000,
{
    proof {
        assert(v >> 32u64 == v / 0x1_0000_0000) by (bit_vector);
    }
    (v >> 32u64) as u32
}

/// Returns the low-order `u32` of an `u64`.
pub fn LODWORD(v: u64) -> (r: u32)
    ensures
        r == v % 0x1_0000_0000,
{
    proof {
        assert(v & 0xffff_ffff == v % 0x1_0000_0000) by (bit_vector);
    }
    (v & 0xffff_ffff) as u32
}

/// Packs two words into a doubleword: the low word in the low half, the
/// high word in the high half. Implements the `MAKELONG`, `MAKEWPARAM` and
/// `MAKELPARAM` macros.
pub fn MAKEDWORD(lo: u16, hi: u16) -> (r: u32)
    ensures
        r == lo + hi * 0x1_0000,
        r % 0x1_0000 == lo,
        r / 0x1_0000 == hi,
{
    lo as u32 + (hi as u32) * 0x1_0000
}

/// Packs two bytes into a word: the low byte in the low half, the high
/// byte in the high half. Originally a macro.
pub fn MAKEWORD(lo: u8, hi: u8) -> (r: u16)
    ensures
        r == lo + hi * 0x100,
        r % 0x100 == lo,
        r / 0x100 == hi,
{
    lo as u16 + (hi as u16) * 0x100
}

/// Reduces a result code to the Win32 error space: keeps the low 16 bits,
/// which carry the error code proper. Originally a macro.
pub fn HRESULT_FROM_WIN32(hresult: i32) -> (r: ERROR)
    ensures
        r.0 == (hresult as u32) % 0x1_0000,
{
    proof {
        assert((hresult as u32) & 0xffff == (hresult as u32) % 0x1_0000) by (bit_vector);
    }
    ERROR((hresult as u32) & 0xffff)
}

//------------------------------------------------------------------------
// Parsing of nul-separated string blocks.

/// The position of the first nul in a sequence of wide characters, or
/// the sequence's length when none occurs.
pub open spec fn first_nul(s: Seq<u16>) -> int
    decreases s.len(),
{
    if s.len() == 0 {
        0
    } else if s[0] == 0 {
        0
    } else {
        1 + first_nul(s.drop_first())
    }
}

/// The first nul's position lies in the sequence, everything before it
/// is not nul, and the position itself holds a nul unless it is the end.
pub proof fn lemma_first_nul_bounds(s: Seq<u16>)
    ensures
        0 <= first_nul(s) <= s.len(),
        forall|m: int| 0 <= m < first_nul(s) ==> s[m] != 0,
        first_nul(s) < s.len() ==> s[first_nul(s)] == 0,
    decreases s.len(),
{
    if s.len() > 0 && s[0] != 0 {
        lemma_first_nul_bounds(s.drop_first());
        assert forall|m: int| 0 <= m < first_nul(s) implies s[m] != 0 by {
            if m > 0 {
                assert(s.drop_first()[m - 1] == s[m]);
            }
        }
    }
}

/// A position before which nothing is nul, and which holds a nul or is
/// the end, is the first nul's position.
proof fn lemma_first_nul_is(s: Seq<u16>, t: int)
    requires
        0 <= t <= s.len(),
        forall|m: int| 0 <= m < t ==> s[m] != 0,
        t < s.len() ==> s[t] == 0,
    ensures
        first_nul(s) == t,
    decreases t,
{
    if t > 0 {
        assert(s[0] != 0);
        lemma_first_nul_is(s.drop_first(), t - 1);
    }
}

/// The strings a nul-separated block holds: each nul ends a string, an
/// empty string ends the block, and a trailing piece without a nul
/// counts whole.
pub open spec fn split_multi_z(s: Seq<u16>) -> Seq<Seq<u16>>
    decreases s.len(),
{
    let i = first_nul(s);
    if i == 0 {
        Seq::empty()
    } else if i >= s.len() {
        seq![s]
    } else {
        proof {
            lemma_first_nul_bounds(s);
        }
        seq![s.take(i)] + split_multi_z(s.skip(i + 1))
    }
}

/// Splits a block of nul-separated strings into its strings: every nul
/// ends one, an empty one ends the block.
pub fn parse_multi_z_str(buf: &[u16]) -> (r: Vec<Vec<u16>>)
    ensures
        r@.len() == split_multi_z(buf@).len(),
        forall|i: int| 0 <= i < r@.len() ==> r@[i]@ == split_multi_z(buf@)[i],
{
    let n = buf.len();
    let mut r: Vec<Vec<u16>> = Vec::new();
    let ghost mut acc = Seq::<Seq<u16>>::empty();
    let mut pos: usize = 0;
    let mut done = false;
    proof {
        assert(buf@.skip(0) =~= buf@);
        assert(acc + split_multi_z(buf@) =~= split_multi_z(buf@));
    }
    while !done
        invariant
            pos <= n,
            n == buf@.len(),
            acc.len() == r@.len(),
            forall|i: int| 0 <= i < r@.len() ==> r@[i]@ == acc[i],
            !done ==> split_multi_z(buf@) == acc + split_multi_z(buf@.skip(pos as int)),
            done ==> acc == split_multi_z(buf@),
        decreases (if done {
            0int
        } else {
            n - pos + 1
        }),
    {
        let mut j = pos;
        while j < n && buf[j] != 0
            invariant
                pos <= j <= n,
                n == buf@.len(),
                forall|m: int| pos <= m < j ==> buf@[m] != 0,
            decreases n - j,
        {
            j = j + 1;
        }
        proof {
            let rest = buf@.skip(pos as int);
            assert forall|m: int| 0 <= m < j as int - pos as int implies rest[m] != 0 by {
                assert(rest[m] == buf@[pos + m]);
            }
            if (j as int) < n as int {
                assert(rest[j as int - pos as int] == buf@[j as int]);
            }
            lemma_first_nul_is(rest, j as int - pos as int);
        }
        if j == pos {
            proof {
                assert(acc + split_multi_z(buf@.skip(pos as int)) =~= acc);
            }
            done = true;
        } else if j >= n {
            let seg = vstd::slice::slice_to_vec(vstd::slice::slice_subrange(buf, pos, n));
            r.push(seg);
            proof {
                let rest = buf@.skip(pos as int);
                assert(split_multi_z(rest) == seq![rest]);
                assert(seg@ =~= rest);
                acc = acc.push(rest);
                assert(acc =~= split_multi_z(buf@));
            }
            done = true;
        } else {
            let seg = vstd::slice::slice_to_vec(vstd::slice::slice_subrange(buf, pos, j));
            r.push(seg);
            proof {
                let rest = buf@.skip(pos as int);
                let i = first_nul(rest);
                assert(i == j as int - pos as int);
                assert(split_multi_z(rest) == seq![rest.take(i)] + split_multi_z(rest.skip(i + 1)));
                assert(seg@ =~= rest.take(i));
                assert(rest.skip(i + 1) =~= buf@.skip(j as int + 1));
                acc = acc.push(seg@);
                assert(acc + split_multi_z(buf@.skip(j as int + 1)) =~= split_multi_z(buf@));
            }
            pos = j + 1;
        }
    }
    r
}

//------------------------------------------------------------------------
// Version comparison. A condition mask packs one three-bit condition
// code per selector: the selector's bit position, times three, is the
// code's offset in the mask.

/// The condition code a mask holds for the slot at the given offset.
pub open spec fn condition_of(cond_mask: u64, shift: u64) -> u64 {
    (cond_mask >> shift) & 7
}

/// A mask with the given condition code set (by or-ing, as the system
/// defines it) in the slot of every selector named by the type mask.
pub open spec fn set_condition_spec(mask: u64, type_mask: u32, cond: u8) -> u64 {
    let c = (cond & 7) as u64;
    let m0 = if type_mask & co::VER_MINORVERSION != 0 {
        mask | (c << 0u64)
    } else {
        mask
    };
    let m1 = if type_mask & co::VER_MAJORVERSION != 0 {
        m0 | (c << 3u64)
    } else {
        m0
    };
    let m2 = if type_mask & co::VER_BUILDNUMBER != 0 {
        m1 | (c << 6u64)
    } else {
        m1
    };
    let m3 = if type_mask & co::VER_PLATFORMID != 0 {
        m2 | (c << 9u64)
    } else {
        m2
    };
    let m4 = if type_mask & co::VER_SERVICEPACKMINOR != 0 {
        m3 | (c << 12u64)
    } else {
        m3
    };
    let m5 = if type_mask & co::VER_SERVICEPACKMAJOR != 0 {
        m4 | (c << 15u64)
    } else {
        m4
    };
    let m6 = if type_mask & co::VER_SUITENAME != 0 {
        m5 | (c << 18u64)
    } else {
        m5
    };
    if type_mask & co::VER_PRODUCT_TYPE != 0 {
        m6 | (c << 21u64)
    } else {
        m6
    }
}

/// Writes a condition code into the slot of every selector named by the
/// type mask, leaving the other slots alone.
pub fn VerSetConditionMask(ConditionMask: u64, TypeMask: VER_MASK, Condition: VER_COND) -> (r: u64)
    ensures
        r == set_condition_spec(ConditionMask, TypeMask.0, Condition.0),
{
    let c = ((Condition.0 & 7) as u64);
    let mut m = ConditionMask;
    if TypeMask.0 & co::VER_MINORVERSION != 0 {
        m = m | (c << 0u64);
    }
    if TypeMask.0 & co::VER_MAJORVERSION != 0 {
        m = m | (c << 3u64);
    }
    if TypeMask.0 & co::VER_BUILDNUMBER != 0 {
        m = m | (c << 6u64);
    }
    if TypeMask.0 & co::VER_PLATFORMID != 0 {
        m = m | (c << 9u64);
    }
    if TypeMask.0 & co::VER_SERVICEPACKMINOR != 0 {
        m = m | (c << 12u64);
    }
    if TypeMask.0 & co::VER_SERVICEPACKMAJOR != 0 {
        m = m | (c << 15u64);
    }
    if TypeMask.0 & co::VER_SUITENAME != 0 {
        m = m | (c << 18u64);
    }
    if TypeMask.0 & co::VER_PRODUCT_TYPE != 0 {
        m = m | (c << 21u64);
    }
    m
}

/// Whether one numeric comparison holds under a condition code. A code
/// outside the comparison family holds of nothing.
pub open spec fn numeric_ok(cur: int, req: int, cond: u64) -> bool {
    if cond == co::VER_EQUAL {
        cur == req
    } else if cond == co::VER_GREATER {
        cur > req
    } else if cond == co::VER_GREATER_EQUAL {
        cur >= req
    } else if cond == co::VER_LESS {
        cur < req
    } else if cond == co::VER_LESS_EQUAL {
        cur <= req
    } else {
        false
    }
}

/// Whether a suite-mask comparison holds: with the and-condition every
/// requested suite bit must be present, with the or-condition at least
/// one.
pub open spec fn suite_ok(cur: u16, req: u16, cond: u64) -> bool {
    if cond == co::VER_AND {
        cur & req == req
    } else if cond == co::VER_OR {
        (cur & req) != 0
    } else {
        false
    }
}

/// Hierarchical comparison of the version-number fields, most
/// significant first: the first field that differs decides, under its
/// own condition code; when every field is equal, the last field's
/// condition decides whether equality passes.
pub open spec fn hier_ok(fields: Seq<(u32, u32, u64)>) -> bool
    decreases fields.len(),
{
    if fields.len() == 0 {
        true
    } else {
        let f = fields.first();
        if f.0 > f.1 {
            f.2 == co::VER_GREATER || f.2 == co::VER_GREATER_EQUAL
        } else if f.0 < f.1 {
            f.2 == co::VER_LESS || f.2 == co::VER_LESS_EQUAL
        } else if fields.len() == 1 {
            f.2 == co::VER_EQUAL || f.2 == co::VER_GREATER_EQUAL || f.2 == co::VER_LESS_EQUAL
        } else {
            hier_ok(fields.drop_first())
        }
    }
}

/// The version-number fields a comparison takes part in, most
/// significant first, each with the system's value, the requested value
/// and the condition code of its slot.
pub open spec fn version_fields(
    cur: OSVERSIONINFOEX,
    req: OSVERSIONINFOEX,
    type_mask: u32,
    cond_mask: u64,
) -> Seq<(u32, u32, u64)> {
    let s = Seq::<(u32, u32, u64)>::empty();
    let s = if type_mask & co::VER_MAJORVERSION != 0 {
        s.push((cur.dwMajorVersion, req.dwMajorVersion, condition_of(cond_mask, 3)))
    } else {
        s
    };
    let s = if type_mask & co::VER_MINORVERSION != 0 {
        s.push((cur.dwMinorVersion, req.dwMinorVersion, condition_of(cond_mask, 0)))
    } else {
        s
    };
    let s = if type_mask & co::VER_SERVICEPACKMAJOR != 0 {
        s.push(
            (cur.wServicePackMajor as u32, req.wServicePackMajor as u32, condition_of(cond_mask, 15)),
        )
    } else {
        s
    };
    if type_mask & co::VER_SERVICEPACKMINOR != 0 {
        s.push(
            (cur.wServicePackMinor as u32, req.wServicePackMinor as u32, condition_of(cond_mask, 12)),
        )
    } else {
        s
    }
}

/// The whole verdict of a version comparison: the hierarchy of version
/// numbers, and each independent field under its own condition.
pub open spec fn verify_version_spec(
    cur: OSVERSIONINFOEX,
    req: OSVERSIONINFOEX,
    type_mask: u32,
    cond_mask: u64,
) -> bool {
    &&& hier_ok(version_fields(cur, req, type_mask, cond_mask))
    &&& (type_mask & co::VER_BUILDNUMBER != 0 ==> numeric_ok(
        cur.dwBuildNumber as int,
        req.dwBuildNumber as int,
        condition_of(cond_mask, 6),
    ))
    &&& (type_mask & co::VER_PLATFORMID != 0 ==> numeric_ok(
        cur.dwPlatformId as int,
        req.dwPlatformId as int,
        condition_of(cond_mask, 9),
    ))
    &&& (type_mask & co::VER_PRODUCT_TYPE != 0 ==> numeric_ok(
        cur.wProductType as int,
        req.wProductType as int,
        condition_of(cond_mask, 21),
    ))
    &&& (type_mask & co::VER_SUITENAME != 0 ==> suite_ok(
        cur.wSuiteMask,
        req.wSuiteMask,
        condition_of(cond_mask, 18),
    ))
}

/// Whether one numeric comparison holds under a condition code.
fn numeric_cmp(cur: u32, req: u32, cond: u64) -> (b: bool)
    ensures
        b == numeric_ok(cur as int, req as int, cond),
{
    if cond == co::VER_EQUAL as u64 {
        cur == req
    } else if cond == co::VER_GREATER as u64 {
        cur > req
    } else if cond == co::VER_GREATER_EQUAL as u64 {
        cur >= req
    } else if cond == co::VER_LESS as u64 {
        cur < req
    } else if cond == co::VER_LESS_EQUAL as u64 {
        cur <= req
    } else {
        false
    }
}

/// Walks the hierarchy of version-number fields.
fn hier_eval(fields: &Vec<(u32, u32, u64)>) -> (b: bool)
    ensures
        b == hier_ok(fields@),
{
    let n = fields.len();
    let mut i: usize = 0;
    proof {
        assert(fields@.skip(0) =~= fields@);
    }
    while i < n
        invariant
            n == fields@.len(),
            i <= n,
            hier_ok(fields@) == hier_ok(fields@.skip(i as int)),
        decreases n - i,
    {
        let f = fields[i];
        proof {
            assert(fields@.skip(i as int).first() == fields@[i as int]);
            assert(fields@.skip(i as int).drop_first() =~= fields@.skip(i as int + 1));
        }
        if f.0 > f.1 {
            return f.2 == co::VER_GREATER as u64 || f.2 == co::VER_GREATER_EQUAL as u64;
        }
        if f.0 < f.1 {
            return f.2 == co::VER_LESS as u64 || f.2 == co::VER_LESS_EQUAL as u64;
        }
        if i == n - 1 {
            return f.2 == co::VER_EQUAL as u64 || f.2 == co::VER_GREATER_EQUAL as u64 || f.2
                == co::VER_LESS_EQUAL as u64;
        }
        i = i + 1;
    }
    true
}

/// Compares a requested version block against the system's version
/// block, field by field as the type mask selects and the condition
/// mask prescribes. The requested block is left unchanged; the verdict
/// says whether every selected comparison holds.
pub fn VerifyVersionInfo(
    current: &OSVERSIONINFOEX,
    lpVersionInformation: &mut OSVERSIONINFOEX,
    dwTypeMask: VER_MASK,
    dwlConditionMask: u64,
) -> (r: Result<bool, ERROR>)
    ensures
        *final(lpVersionInformation) == *old(lpVersionInformation),
        r == Result::<bool, ERROR>::Ok(
            verify_version_spec(*current, *old(lpVersionInformation), dwTypeMask.0, dwlConditionMask),
        ),
{
    let req = *lpVersionInformation;
    let mut fields: Vec<(u32, u32, u64)> = Vec::new();
    if dwTypeMask.0 & co::VER_MAJORVERSION != 0 {
        let c = (dwlConditionMask >> 3u64) & 7;
        fields.push((current.dwMajorVersion, req.dwMajorVersion, c));
    }
    if dwTypeMask.0 & co::VER_MINORVERSION != 0 {
        let c = (dwlConditionMask >> 0u64) & 7;
        fields.push((current.dwMinorVersion, req.dwMinorVersion, c));
    }
    if dwTypeMask.0 & co::VER_SERVICEPACKMAJOR != 0 {
        let c = (dwlConditionMask >> 15u64) & 7;
        fields.push((current.wServicePackMajor as u32, req.wServicePackMajor as u32, c));
    }
    if dwTypeMask.0 & co::VER_SERVICEPACKMINOR != 0 {
        let c = (dwlConditionMask >> 12u64) & 7;
        fields.push((current.wServicePackMinor as u32, req.wServicePackMinor as u32, c));
    }
    let mut verdict = hier_eval(&fields);
    if dwTypeMask.0 & co::VER_BUILDNUMBER != 0 {
        let c = (dwlConditionMask >> 6u64) & 7;
        verdict = verdict && numeric_cmp(current.dwBuildNumber, req.dwBuildNumber, c);
    }
    if dwTypeMask.0 & co::VER_PLATFORMID != 0 {
        let c = (dwlConditionMask >> 9u64) & 7;
        verdict = verdict && numeric_cmp(current.dwPlatformId, req.dwPlatformId, c);
    }
    if dwTypeMask.0 & co::VER_PRODUCT_TYPE != 0 {
        let c = (dwlConditionMask >> 21u64) & 7;
        verdict = verdict && numeric_cmp(current.wProductType as u32, req.wProductType as u32, c);
    }
    if dwTypeMask.0 & co::VER_SUITENAME != 0 {
        let c = (dwlConditionMask >> 18u64) & 7;
        let s = if c == co::VER_AND as u64 {
            current.wSuiteMask & req.wSuiteMask == req.wSuiteMask
        } else if c == co::VER_OR as u64 {
            (current.wSuiteMask & req.wSuiteMask) != 0
        } else {
            false
        };
        verdict = verdict && s;
    }
    Ok(verdict)
}

/// Whether a system version reaches a requested major, minor and
/// service-pack triple, compared most significant first.
pub open spec fn version_at_least(cur: OSVERSIONINFOEX, maj: u32, min: u32, sp: u16) -> bool {
    ||| cur.dwMajorVersion > maj
    ||| (cur.dwMajorVersion == maj && cur.dwMinorVersion > min)
    ||| (cur.dwMajorVersion == maj && cur.dwMinorVersion == min && cur.wServicePackMajor >= sp)
}

/// Asks whether the system's version reaches the given major, minor and
/// service-pack numbers.
pub fn IsWindowsVersionOrGreater(
    current: &OSVERSIONINFOEX,
    wMajorVersion: u16,
    wMinorVersion: u16,
    wServicePackMajor: u16,
) -> (r: Result<bool, ERROR>)
    ensures
        r == Result::<bool, ERROR>::Ok(
            version_at_least(
                *current,
                wMajorVersion as u32,
                wMinorVersion as u32,
                wServicePackMajor,
            ),
        ),
{
    let mut osvi = OSVERSIONINFOEX::default();
    let dwlConditionMask = VerSetConditionMask(
        VerSetConditionMask(
            VerSetConditionMask(
                0,
                VER_MASK(co::VER_MAJORVERSION),
                VER_COND(co::VER_GREATER_EQUAL),
            ),
            VER_MASK(co::VER_MINORVERSION),
            VER_COND(co::VER_GREATER_EQUAL),
        ),
        VER_MASK(co::VER_SERVICEPACKMAJOR),
        VER_COND(co::VER_GREATER_EQUAL),
    );

    osvi.dwMajorVersion = wMajorVersion as u32;
    osvi.dwMinorVersion = wMinorVersion as u32;
    osvi.wServicePackMajor = wServicePackMajor;

    proof {
        lemma_ge_mask_conditions();
        let tm: u32 = co::VER_MAJORVERSION | co::VER_MINORVERSION | co::VER_SERVICEPACKMAJOR;
        let ge = co::VER_GREATER_EQUAL as u64;
        assert(condition_of(dwlConditionMask, 3) == ge);
        assert(condition_of(dwlConditionMask, 0) == ge);
        assert(condition_of(dwlConditionMask, 15) == ge);
        assert(version_fields(*current, osvi, tm, dwlConditionMask) =~= seq![
            (current.dwMajorVersion, osvi.dwMajorVersion, ge),
            (current.dwMinorVersion, osvi.dwMinorVersion, ge),
            (current.wServicePackMajor as u32, osvi.wServicePackMajor as u32, ge),
        ]);
        lemma_hier_ge_triple(
            current.dwMajorVersion,
            osvi.dwMajorVersion,
            current.dwMinorVersion,
            osvi.dwMinorVersion,
            current.wServicePackMajor as u32,
            osvi.wServicePackMajor as u32,
        );
        assert(verify_version_spec(*current, osvi, tm, dwlConditionMask) == version_at_least(
            *current,
            wMajorVersion as u32,
            wMinorVersion as u32,
            wServicePackMajor,
        ));
    }
    VerifyVersionInfo(
        current,
        &mut osvi,
        VER_MASK(co::VER_MAJORVERSION | co::VER_MINORVERSION | co::VER_SERVICEPACKMAJOR),
        dwlConditionMask,
    )
}

/// The greater-or-equal mask built for the version triple holds the
/// greater-or-equal code in the three slots read back, and the triple's
/// selector bits are the ones expected.
proof fn lemma_ge_mask_conditions()
    ensures
        condition_of(set_condition_spec(
            set_condition_spec(
                set_condition_spec(0, co::VER_MAJORVERSION, co::VER_GREATER_EQUAL),
                co::VER_MINORVERSION,
                co::VER_GREATER_EQUAL,
            ),
            co::VER_SERVICEPACKMAJOR,
            co::VER_GREATER_EQUAL,
        ), 3) == co::VER_GREATER_EQUAL,
        condition_of(set_condition_spec(
            set_condition_spec(
                set_condition_spec(0, co::VER_MAJORVERSION, co::VER_GREATER_EQUAL),
                co::VER_MINORVERSION,
                co::VER_GREATER_EQUAL,
            ),
            co::VER_SERVICEPACKMAJOR,
            co::VER_GREATER_EQUAL,
        ), 0) == co::VER_GREATER_EQUAL,
        condition_of(set_condition_spec(
            set_condition_spec(
                set_condition_spec(0, co::VER_MAJORVERSION, co::VER_GREATER_EQUAL),
                co::VER_MINORVERSION,
                co::VER_GREATER_EQUAL,
            ),
            co::VER_SERVICEPACKMAJOR,
            co::VER_GREATER_EQUAL,
        ), 15) == co::VER_GREATER_EQUAL,
        co::VER_MAJORVERSION | co::VER_MINORVERSION | co::VER_SERVICEPACKMAJOR == 0x23u32,
        0x23u32 & co::VER_MAJORVERSION != 0,
        0x23u32 & co::VER_MINORVERSION != 0,
        0x23u32 & co::VER_SERVICEPACKMAJOR != 0,
        0x23u32 & co::VER_SERVICEPACKMINOR == 0,
        0x23u32 & co::VER_BUILDNUMBER == 0,
        0x23u32 & co::VER_PLATFORMID == 0,
        0x23u32 & co::VER_PRODUCT_TYPE == 0,
        0x23u32 & co::VER_SUITENAME == 0,
{
    assert((0x23u32 & co::VER_MAJORVERSION) != 0 && (0x23u32 & co::VER_MINORVERSION) != 0 && (
    0x23u32 & co::VER_SERVICEPACKMAJOR) != 0 && (0x23u32 & co::VER_SERVICEPACKMINOR) == 0 && (
    0x23u32 & co::VER_BUILDNUMBER) == 0 && (0x23u32 & co::VER_PLATFORMID) == 0 && (0x23u32
        & co::VER_PRODUCT_TYPE) == 0 && (0x23u32 & co::VER_SUITENAME) == 0) by (bit_vector);
    assert((0x2u32 & co::VER_MINORVERSION) == 0 && (0x2u32 & co::VER_MAJORVERSION) != 0 && (0x2u32
        & co::VER_BUILDNUMBER) == 0 && (0x2u32 & co::VER_PLATFORMID) == 0 && (0x2u32
        & co::VER_SERVICEPACKMINOR) == 0 && (0x2u32 & co::VER_SERVICEPACKMAJOR) == 0 && (0x2u32
        & co::VER_SUITENAME) == 0 && (0x2u32 & co::VER_PRODUCT_TYPE) == 0) by (bit_vector);
    assert((0x1u32 & co::VER_MINORVERSION) != 0 && (0x1u32 & co::VER_MAJORVERSION) == 0 && (0x1u32
        & co::VER_BUILDNUMBER) == 0 && (0x1u32 & co::VER_PLATFORMID) == 0 && (0x1u32
        & co::VER_SERVICEPACKMINOR) == 0 && (0x1u32 & co::VER_SERVICEPACKMAJOR) == 0 && (0x1u32
        & co::VER_SUITENAME) == 0 && (0x1u32 & co::VER_PRODUCT_TYPE) == 0) by (bit_vector);
    assert((0x20u32 & co::VER_MINORVERSION) == 0 && (0x20u32 & co::VER_MAJORVERSION) == 0 && (
    0x20u32 & co::VER_BUILDNUMBER) == 0 && (0x20u32 & co::VER_PLATFORMID) == 0 && (0x20u32
        & co::VER_SERVICEPACKMINOR) == 0 && (0x20u32 & co::VER_SERVICEPACKMAJOR) != 0 && (0x20u32
        & co::VER_SUITENAME) == 0 && (0x20u32 & co::VER_PRODUCT_TYPE) == 0) by (bit_vector);
    assert((3u8 & 7) == 3u8) by (bit_vector);
    assert((((0u64 | (3u64 << 3u64)) | (3u64 << 0u64)) | (3u64 << 15u64)) == 0x1801bu64)
        by (bit_vector);
    assert(((0x1801bu64 >> 3u64) & 7) == 3 && ((0x1801bu64 >> 0u64) & 7) == 3 && ((0x1801bu64
        >> 15u64) & 7) == 3) by (bit_vector);
    assert((co::VER_MAJORVERSION | co::VER_MINORVERSION | co::VER_SERVICEPACKMAJOR) == 0x23u32)
        by (bit_vector);
}

/// A three-field hierarchy with the greater-or-equal condition in every
/// slot is exactly the lexicographic greater-or-equal of the triples.
proof fn lemma_hier_ge_triple(ca: u32, ra: u32, cb: u32, rb: u32, cc: u32, rc: u32)
    ensures
        hier_ok(
            seq![
                (ca, ra, co::VER_GREATER_EQUAL as u64),
                (cb, rb, co::VER_GREATER_EQUAL as u64),
                (cc, rc, co::VER_GREATER_EQUAL as u64),
            ],
        ) == (ca > ra || (ca == ra && cb > rb) || (ca == ra && cb == rb && cc >= rc)),
{
    let s3 = seq![
        (ca, ra, co::VER_GREATER_EQUAL as u64),
        (cb, rb, co::VER_GREATER_EQUAL as u64),
        (cc, rc, co::VER_GREATER_EQUAL as u64),
    ];
    let s2 = seq![(cb, rb, co::VER_GREATER_EQUAL as u64), (cc, rc, co::VER_GREATER_EQUAL as u64)];
    let s1 = seq![(cc, rc, co::VER_GREATER_EQUAL as u64)];
    assert(s3.drop_first() =~= s2);
    assert(s2.drop_first() =~= s1);
    assert(hier_ok(s1) == (cc >= rc));
    assert(hier_ok(s2) == (cb > rb || (cb == rb && cc >= rc)));
    assert(hier_ok(s3) == (ca > ra || (ca == ra && (cb > rb || (cb == rb && cc >= rc)))));
}

/// Asks whether the system's version reaches the first release line
/// whose packed number is `0x0a00`.
pub fn IsWindows10OrGreater(current: &OSVERSIONINFOEX) -> (r: Result<bool, ERROR>)
    ensures
        r == Result::<bool, ERROR>::Ok(version_at_least(*current, 10, 0, 0)),
{
    let hi = HIBYTE(co::WIN32_WINNT_WINTHRESHOLD);
    let lo = LOBYTE(co::WIN32_WINNT_WINTHRESHOLD);
    IsWindowsVersionOrGreater(current, hi as u16, lo as u16, 0)
}

/// Asks whether the system's version reaches the release line packed as
/// `0x0601`.
pub fn IsWindows7OrGreater(current: &OSVERSIONINFOEX) -> (r: Result<bool, ERROR>)
    ensures
        r == Result::<bool, ERROR>::Ok(version_at_least(*current, 6, 1, 0)),
{
    let hi = HIBYTE(co::WIN32_WINNT_WIN7);
    let lo = LOBYTE(co::WIN32_WINNT_WIN7);
    IsWindowsVersionOrGreater(current, hi as u16, lo as u16, 0)
}

/// Asks whether the system's version reaches the release line packed as
/// `0x0602`.
pub fn IsWindows8OrGreater(current: &OSVERSIONINFOEX) -> (r: Result<bool, ERROR>)
    ensures
        r == Result::<bool, ERROR>::Ok(version_at_least(*current, 6, 2, 0)),
{
    let hi = HIBYTE(co::WIN32_WINNT_WIN8);
    let lo = LOBYTE(co::WIN32_WINNT_WIN8);
    IsWindowsVersionOrGreater(current, hi as u16, lo as u16, 0)
}

/// Asks whether the system's version reaches the release line packed as
/// `0x0603`.
pub fn IsWindows8Point1OrGreater(current: &OSVERSIONINFOEX) -> (r: Result<bool, ERROR>)
    ensures
        r == Result::<bool, ERROR>::Ok(version_at_least(*current, 6, 3, 0)),
{
    let hi = HIBYTE(co::WIN32_WINNT_WINBLUE);
    let lo = LOBYTE(co::WIN32_WINNT_WINBLUE);
    IsWindowsVersionOrGreater(current, hi as u16, lo as u16, 0)
}

/// Asks whether the system's version reaches the release line packed as
/// `0x0600`.
pub fn IsWindowsVistaOrGreater(current: &OSVERSIONINFOEX) -> (r: Result<bool, ERROR>)
    ensures
        r == Result::<bool, ERROR>::Ok(version_at_least(*current, 6, 0, 0)),
{
    let hi = HIBYTE(co::WIN32_WINNT_VISTA);
    let lo = LOBYTE(co::WIN32_WINNT_VISTA);
    IsWindowsVersionOrGreater(current, hi as u16, lo as u16, 0)
}

/// Asks whether the system is a server edition: its product type is
/// anything but the workstation type.
pub fn IsWindowsServer(current: &OSVERSIONINFOEX) -> (r: Result<bool, ERROR>)
    ensures
        r == Result::<bool, ERROR>::Ok(current.wProductType != co::VER_NT_WORKSTATION),
{
    let mut osvi = OSVERSIONINFOEX::default();
    osvi.wProductType = co::VER_NT_WORKSTATION;
    let dwlConditionMask = VerSetConditionMask(
        0,
        VER_MASK(co::VER_PRODUCT_TYPE),
        VER_COND(co::VER_EQUAL),
    );
    proof {
        lemma_product_type_mask();
        assert(version_fields(*current, osvi, co::VER_PRODUCT_TYPE, dwlConditionMask) =~= Seq::<
            (u32, u32, u64),
        >::empty());
        assert(hier_ok(Seq::<(u32, u32, u64)>::empty()));
        assert(verify_version_spec(*current, osvi, co::VER_PRODUCT_TYPE, dwlConditionMask) == (
        current.wProductType == co::VER_NT_WORKSTATION));
    }
    let inner = VerifyVersionInfo(current, &mut osvi, VER_MASK(co::VER_PRODUCT_TYPE), dwlConditionMask);
    match inner {
        Ok(b) => Ok(!b),
        Err(e) => Err(e),
    }
}

/// The equality mask built for the product type holds the equality code
/// in the product-type slot, and names no other selector.
proof fn lemma_product_type_mask()
    ensures
        condition_of(set_condition_spec(0, co::VER_PRODUCT_TYPE, co::VER_EQUAL), 21)
            == co::VER_EQUAL,
        co::VER_PRODUCT_TYPE & co::VER_MAJORVERSION == 0,
        co::VER_PRODUCT_TYPE & co::VER_MINORVERSION == 0,
        co::VER_PRODUCT_TYPE & co::VER_SERVICEPACKMAJOR == 0,
        co::VER_PRODUCT_TYPE & co::VER_SERVICEPACKMINOR == 0,
        co::VER_PRODUCT_TYPE & co::VER_BUILDNUMBER == 0,
        co::VER_PRODUCT_TYPE & co::VER_PLATFORMID == 0,
        co::VER_PRODUCT_TYPE & co::VER_SUITENAME == 0,
        co::VER_PRODUCT_TYPE & co::VER_PRODUCT_TYPE != 0,
{
    assert((0x80u32 & co::VER_MINORVERSION) == 0 && (0x80u32 & co::VER_MAJORVERSION) == 0 && (
    0x80u32 & co::VER_BUILDNUMBER) == 0 && (0x80u32 & co::VER_PLATFORMID) == 0 && (0x80u32
        & co::VER_SERVICEPACKMINOR) == 0 && (0x80u32 & co::VER_SERVICEPACKMAJOR) == 0 && (0x80u32
        & co::VER_SUITENAME) == 0 && (0x80u32 & co::VER_PRODUCT_TYPE) != 0) by (bit_vector);
    assert((1u8 & 7) == 1u8) by (bit_vector);
    assert((0u64 | (1u64 << 21u64)) == 0x20_0000u64) by (bit_vector);
    assert(((0x20_0000u64 >> 21u64) & 7) == 1) by (bit_vector);
}

} // verus!
