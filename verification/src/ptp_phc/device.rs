//! Naming of the PTP hardware clock that belongs to a network interface.

use vstd::prelude::*;

use crate::io::text::{chars_of, string_from_chars};

verus! {

/// The sysfs directory that lists the PTP clock of an interface:
/// `/sys/class/net/{iface}/device/ptp`.
pub open spec fn sysfs_ptp_dir_text(iface: Seq<char>) -> Seq<char> {
    "/sys/class/net/"@ + iface + "/device/ptp"@
}

/// Whether a directory entry names a PTP clock: `ptp` followed by ASCII
/// digits.
pub open spec fn is_ptp_device_name(name: Seq<char>) -> bool {
    &&& name.len() >= 3
    &&& name.subrange(0, 3) == "ptp"@
    &&& forall|i: int| 3 <= i < name.len() ==> '0' <= #[trigger] name[i] <= '9'
}

/// Appends the characters of a string.
fn append(v: &mut Vec<char>, s: &Vec<char>)
    ensures
        final(v)@ == old(v)@ + s@,
{
    let mut i: usize = 0;
    while i < s.len()
        invariant
            i <= s@.len(),
            v@ == old(v)@ + s@.subrange(0, i as int),
        decreases s@.len() - i,
    {
        v.push(s[i]);
        i += 1;
        assert(v@ =~= old(v)@ + s@.subrange(0, i as int));
    }
    assert(s@.subrange(0, i as int) =~= s@);
}

/// The sysfs directory that lists the PTP clock of an interface.
pub fn sysfs_ptp_dir(iface: &str) -> (r: String)
    ensures
        r@ == sysfs_ptp_dir_text(iface@),
{
    let mut v = chars_of("/sys/class/net/");
    append(&mut v, &chars_of(iface));
    append(&mut v, &chars_of("/device/ptp"));
    string_from_chars(&v)
}

/// The device path of a PTP clock directory entry (`ptpN` gives `/dev/ptpN`),
/// or `None` for an entry that names no PTP clock.
pub fn ptp_device_path(entry_name: &str) -> (r: Option<String>)
    ensures
        is_ptp_device_name(entry_name@) <==> r is Some,
        r matches Some(p) ==> p@ == "/dev/"@ + entry_name@,
{
    let name = chars_of(entry_name);
    let prefix = chars_of("ptp");
    proof {
        reveal_strlit("ptp");
    }
    if name.len() < 3 || name[0] != prefix[0] || name[1] != prefix[1] || name[2] != prefix[2] {
        return None;
    }
    assert(name@.subrange(0, 3) =~= "ptp"@);
    let mut i: usize = 3;
    while i < name.len()
        invariant
            3 <= i <= name@.len(),
            name@ == entry_name@,
            forall|j: int| 3 <= j < i ==> '0' <= #[trigger] name@[j] <= '9',
        decreases name@.len() - i,
    {
        if name[i] < '0' || name[i] > '9' {
            assert(!('0' <= name@[i as int] <= '9'));
            return None;
        }
        i += 1;
    }
    let mut v = chars_of("/dev/");
    append(&mut v, &name);
    Some(string_from_chars(&v))
}

/// The names of directory entries.
pub open spec fn entry_names(entries: Seq<String>) -> Seq<Seq<char>> {
    Seq::new(entries.len(), |i: int| entries[i]@)
}

/// The device path of the first entry, in the order listed, that names a PTP
/// clock.
pub open spec fn first_ptp_device(names: Seq<Seq<char>>) -> Option<Seq<char>>
    decreases names.len(),
{
    if names.len() == 0 {
        None
    } else if is_ptp_device_name(names[0]) {
        Some("/dev/"@ + names[0])
    } else {
        first_ptp_device(names.drop_first())
    }
}

/// The PTP device among the entries of an interface's sysfs PTP directory
/// ([`sysfs_ptp_dir`], listed by the caller): the device path of the first
/// entry that names a PTP clock, `None` when none does.
pub fn find_ptp_device(entries: &[String]) -> (r: Option<String>)
    ensures
        match first_ptp_device(entry_names(entries@)) {
            Some(p) => r matches Some(x) && x@ == p,
            None => r is None,
        },
{
    let ghost names = entry_names(entries@);
    let mut i: usize = 0;
    assert(names.subrange(0, names.len() as int) =~= names);
    while i < entries.len()
        invariant
            i <= entries@.len(),
            names == entry_names(entries@),
            first_ptp_device(names) == first_ptp_device(names.subrange(i as int, names.len() as int)),
        decreases entries@.len() - i,
    {
        let ghost rest = names.subrange(i as int, names.len() as int);
        assert(rest[0] == entries@[i as int]@);
        assert(rest.drop_first() =~= names.subrange(i + 1, names.len() as int));
        match ptp_device_path(entries[i].as_str()) {
            Some(p) => {
                return Some(p);
            },
            None => {},
        }
        i += 1;
    }
    assert(names.subrange(i as int, names.len() as int) =~= Seq::<Seq<char>>::empty());
    None
}

} // verus!
