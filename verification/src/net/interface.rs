use vstd::prelude::*;

use crate::io::text::{chars_of, string_from_chars, trim, trim_chars};
use crate::net::mac_address::{mac_octets, mac_verdict, split_colon, MacAddress, MacParseError, MacTextVerdict};

verus! {

/// A Linux network interface name (such as `"eth0"`) that was found on the
/// system, under `/sys/class/net`.
#[derive(Debug, Clone, PartialEq, Eq, Hash)]
pub struct NetworkInterface(String);

/// The directory that lists the network interfaces.
pub open spec fn sys_class_net() -> Seq<char> {
    seq!['/', 's', 'y', 's', '/', 'c', 'l', 'a', 's', 's', '/', 'n', 'e', 't']
}

/// A name joined to `/sys/class/net` as a path: an absolute name replaces the
/// directory, any other is appended after a `/`.
pub open spec fn sysfs_path_of(name: Seq<char>) -> Seq<char> {
    if name.len() > 0 && name[0] == '/' {
        name
    } else {
        sys_class_net() + seq!['/'] + name
    }
}

impl NetworkInterface {
    /// The name held.
    pub closed spec fn name_spec(&self) -> Seq<char> {
        self.0@
    }

    /// Creates an interface from its name when `/sys/class/net/{name}` exists
    /// (`present`), `None` otherwise.
    pub fn new(name: String, present: bool) -> (r: Option<Self>)
        ensures
            r is Some <==> present,
            r matches Some(i) ==> i.name_spec() == name@,
    {
        if !present {
            return None;
        }
        Some(NetworkInterface(name))
    }

    /// The name of the interface.
    pub fn name(&self) -> (r: &str)
        ensures
            r@ == self.name_spec(),
    {
        self.0.as_str()
    }

    /// Consumes the interface and returns its name.
    pub fn into_name(self) -> (r: String)
        ensures
            r@ == self.name_spec(),
    {
        self.0
    }

    /// The text of the interface: its name.
    pub fn to_string(&self) -> (r: String)
        ensures
            r@ == self.name_spec(),
    {
        self.0.clone()
    }

    /// The sysfs path of the interface, `/sys/class/net/{name}`.
    pub fn sysfs_path(&self) -> (r: String)
        ensures
            r@ == sysfs_path_of(self.name_spec()),
    {
        let name = chars_of(self.0.as_str());
        if name.len() > 0 && name[0] == '/' {
            return string_from_chars(&name);
        }
        let dir = "/sys/class/net/";
        proof {
            reveal_strlit("/sys/class/net/");
        }
        let mut path = chars_of(dir);
        assert(path@ =~= sys_class_net() + seq!['/']);
        let mut i: usize = 0;
        while i < name.len()
            invariant
                i <= name@.len(),
                path@ == sys_class_net() + seq!['/'] + name@.subrange(0, i as int),
            decreases name@.len() - i,
        {
            path.push(name[i]);
            i += 1;
            assert(path@ =~= sys_class_net() + seq!['/'] + name@.subrange(0, i as int));
        }
        assert(name@.subrange(0, i as int) =~= name@);
        string_from_chars(&path)
    }

    /// The MAC address of the interface, from the text of its sysfs `address`
    /// file (`{sysfs_path}/address`, which the caller reads): the text without
    /// surrounding whitespace, parsed as by [`MacAddress::parse`].
    pub fn mac_address(&self, address_file: &str) -> (r: Result<MacAddress, MacParseError>)
        ensures
            match mac_verdict(split_colon(trim(address_file@)), 0) {
                MacTextVerdict::Valid => r matches Ok(m) && m.0@ == mac_octets(
                    split_colon(trim(address_file@)),
                ),
                MacTextVerdict::BadFormat => r == Err::<MacAddress, MacParseError>(
                    MacParseError::InvalidFormat,
                ),
                MacTextVerdict::BadHex => r matches Err(MacParseError::InvalidHex(_)),
            },
    {
        let trimmed = trim_chars(&chars_of(address_file));
        let text = string_from_chars(&trimmed);
        MacAddress::parse(text.as_str())
    }
}

} // verus!
