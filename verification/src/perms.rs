//! Symbolic rendering of POSIX permission bits.

use vstd::prelude::*;

verus! {

/// The letter for one permission bit: the given letter when the bit at
/// `shift` is set, `-` otherwise.
pub open spec fn perm_bit_char(p: u32, shift: u32, letter: char) -> char {
    if (p >> shift) & 1 == 1 { letter } else { '-' }
}

/// The 10-character symbolic permission string: the directory bit, then
/// read-write-execute triplets for owner, group and other.
pub open spec fn perm_chars(p: u32) -> Seq<char> {
    seq![
        perm_bit_char(p, 14, 'd'),
        perm_bit_char(p, 8, 'r'),
        perm_bit_char(p, 7, 'w'),
        perm_bit_char(p, 6, 'x'),
        perm_bit_char(p, 5, 'r'),
        perm_bit_char(p, 4, 'w'),
        perm_bit_char(p, 3, 'x'),
        perm_bit_char(p, 2, 'r'),
        perm_bit_char(p, 1, 'w'),
        perm_bit_char(p, 0, 'x'),
    ]
}

/// Renders permission bits as the 10-character symbolic string.
pub fn format_permissions(permissions: u32) -> (r: String)
    ensures
        r@ == perm_chars(permissions),
{
    let directory = if (permissions >> 14) & 1 == 1 { "d" } else { "-" };
    let owner_read = if (permissions >> 8) & 1 == 1 { "r" } else { "-" };
    let owner_write = if (permissions >> 7) & 1 == 1 { "w" } else { "-" };
    let owner_execute = if (permissions >> 6) & 1 == 1 { "x" } else { "-" };
    let group_read = if (permissions >> 5) & 1 == 1 { "r" } else { "-" };
    let group_write = if (permissions >> 4) & 1 == 1 { "w" } else { "-" };
    let group_execute = if (permissions >> 3) & 1 == 1 { "x" } else { "-" };
    let other_read = if (permissions >> 2) & 1 == 1 { "r" } else { "-" };
    let other_write = if (permissions >> 1) & 1 == 1 { "w" } else { "-" };
    let other_execute = if permissions & 1 == 1 { "x" } else { "-" };

    let mut r = String::new();
    r.append(directory);
    r.append(owner_read);
    r.append(owner_write);
    r.append(owner_execute);
    r.append(group_read);
    r.append(group_write);
    r.append(group_execute);
    r.append(other_read);
    r.append(other_write);
    r.append(other_execute);
    proof {
        reveal_strlit("d");
        reveal_strlit("r");
        reveal_strlit("w");
        reveal_strlit("x");
        reveal_strlit("-");
        assert(directory@ =~= seq![perm_bit_char(permissions, 14, 'd')]);
        assert(owner_read@ =~= seq![perm_bit_char(permissions, 8, 'r')]);
        assert(owner_write@ =~= seq![perm_bit_char(permissions, 7, 'w')]);
        assert(owner_execute@ =~= seq![perm_bit_char(permissions, 6, 'x')]);
        assert(group_read@ =~= seq![perm_bit_char(permissions, 5, 'r')]);
        assert(group_write@ =~= seq![perm_bit_char(permissions, 4, 'w')]);
        assert(group_execute@ =~= seq![perm_bit_char(permissions, 3, 'x')]);
        assert(other_read@ =~= seq![perm_bit_char(permissions, 2, 'r')]);
        assert(other_write@ =~= seq![perm_bit_char(permissions, 1, 'w')]);
        assert(permissions >> 0u32 == permissions) by (bit_vector);
        assert(other_execute@ =~= seq![perm_bit_char(permissions, 0, 'x')]);
        assert(r@ =~= perm_chars(permissions));
    }
    r
}

} // verus!
