//! What a managed `ptp4l` instance is configured and started with, and how its
//! state is queried through `pmc`.

use vstd::prelude::*;

use crate::io::text::{chars_of, decimal_chars, decimal_text, string_from_chars};

verus! {

/// The role of a PTP instance: grandmaster, or a clock that synchronizes to a
/// remote master (the `-s` flag of `ptp4l`).
#[derive(Debug, Clone, Copy, PartialEq, Eq, Structural)]
pub enum PtpRole {
    /// Grandmaster clock (no upstream synchronization source).
    Master,
    /// Client clock that synchronizes to a master.
    Slave,
}

/// Appends the characters of a string.
fn push_str(v: &mut Vec<char>, s: &str)
    ensures
        final(v)@ == old(v)@ + s@,
{
    let c = chars_of(s);
    let mut i: usize = 0;
    while i < c.len()
        invariant
            i <= c@.len(),
            v@ == old(v)@ + c@.subrange(0, i as int),
        decreases c@.len() - i,
    {
        v.push(c[i]);
        i += 1;
        assert(v@ =~= old(v)@ + c@.subrange(0, i as int));
    }
    assert(c@.subrange(0, i as int) =~= c@);
}

/// Appends characters.
fn push_chars(v: &mut Vec<char>, c: &Vec<char>)
    ensures
        final(v)@ == old(v)@ + c@,
{
    let mut i: usize = 0;
    while i < c.len()
        invariant
            i <= c@.len(),
            v@ == old(v)@ + c@.subrange(0, i as int),
        decreases c@.len() - i,
    {
        v.push(c[i]);
        i += 1;
        assert(v@ =~= old(v)@ + c@.subrange(0, i as int));
    }
    assert(c@.subrange(0, i as int) =~= c@);
}

/// The name of the runtime resources of an instance: `ptp4l-{name}-{pid}`.
pub open spec fn instance_stem(name: Seq<char>, pid: u32) -> Seq<char> {
    "ptp4l-"@ + name + "-"@ + decimal_text(pid as nat)
}

/// The path of an instance's configuration file: `/tmp/ptp4l-{name}-{pid}.cfg`.
pub open spec fn config_path_text(name: Seq<char>, pid: u32) -> Seq<char> {
    "/tmp/"@ + instance_stem(name, pid) + ".cfg"@
}

/// The configuration of an instance: the global section with its own control
/// sockets under `/var/run`, so that instances do not share them.
pub open spec fn config_text(name: Seq<char>, pid: u32) -> Seq<char> {
    "[global]\nuds_address /var/run/"@ + instance_stem(name, pid) + "\nuds_ro_address /var/run/"@
        + instance_stem(name, pid) + "-ro\n"@
}

/// The name of the runtime resources of an instance.
fn stem_chars(name: &str, pid: u32) -> (r: Vec<char>)
    ensures
        r@ == instance_stem(name@, pid),
{
    let mut v: Vec<char> = Vec::new();
    push_str(&mut v, "ptp4l-");
    push_str(&mut v, name);
    push_str(&mut v, "-");
    push_chars(&mut v, &decimal_chars(pid as u64));
    assert(v@ =~= instance_stem(name@, pid));
    v
}

/// The path of the configuration file of an instance named `name` in the
/// process `pid`.
pub fn config_path(name: &str, pid: u32) -> (r: String)
    ensures
        r@ == config_path_text(name@, pid),
{
    let stem = stem_chars(name, pid);
    let mut v: Vec<char> = Vec::new();
    push_str(&mut v, "/tmp/");
    push_chars(&mut v, &stem);
    push_str(&mut v, ".cfg");
    assert(v@ =~= config_path_text(name@, pid));
    string_from_chars(&v)
}

/// The configuration file contents of an instance named `name` in the process
/// `pid`.
pub fn config_contents(name: &str, pid: u32) -> (r: String)
    ensures
        r@ == config_text(name@, pid),
{
    let stem = stem_chars(name, pid);
    let mut v: Vec<char> = Vec::new();
    push_str(&mut v, "[global]\nuds_address /var/run/");
    push_chars(&mut v, &stem);
    push_str(&mut v, "\nuds_ro_address /var/run/");
    push_chars(&mut v, &stem);
    push_str(&mut v, "-ro\n");
    assert(v@ =~= config_text(name@, pid));
    string_from_chars(&v)
}

/// The models of argument lists.
pub open spec fn args_view(v: Seq<String>) -> Seq<Seq<char>> {
    Seq::new(v.len(), |i: int| v[i]@)
}

/// The `ptp4l` arguments of an instance: the interface, hardware timestamping,
/// messages on standard output, IEEE 802.3 transport, the configuration file,
/// and `-s` for a slave.
pub open spec fn ptp4l_args_of(interface: Seq<char>, config: Seq<char>, role: PtpRole) -> Seq<
    Seq<char>,
> {
    let base = seq!["-i"@, interface, "-H"@, "-m"@, "-2"@, "-f"@, config];
    match role {
        PtpRole::Slave => base.push("-s"@),
        PtpRole::Master => base,
    }
}

/// The `ptp4l` arguments of an instance on the given interface, with the
/// given configuration file and role.
pub fn ptp4l_args(interface: &str, config: &str, role: PtpRole) -> (r: Vec<String>)
    ensures
        args_view(r@) == ptp4l_args_of(interface@, config@, role),
{
    let mut args: Vec<String> = Vec::new();
    args.push("-i".to_owned());
    args.push(interface.to_owned());
    args.push("-H".to_owned());
    args.push("-m".to_owned());
    args.push("-2".to_owned());
    args.push("-f".to_owned());
    args.push(config.to_owned());
    if let PtpRole::Slave = role {
        args.push("-s".to_owned());
    }
    assert(args_view(args@) =~= ptp4l_args_of(interface@, config@, role));
    args
}

/// The `pmc` arguments that query an instance's time status, port and current
/// datasets over its own socket.
pub open spec fn pmc_args_of(config: Seq<char>) -> Seq<Seq<char>> {
    seq![
        "-u"@,
        "-b"@,
        "0"@,
        "-f"@,
        config,
        "GET TIME_STATUS_NP"@,
        "GET PORT_DATA_SET"@,
        "GET CURRENT_DATA_SET"@,
    ]
}

/// The `pmc` arguments that query the instance with the given configuration
/// file.
pub fn pmc_args(config: &str) -> (r: Vec<String>)
    ensures
        args_view(r@) == pmc_args_of(config@),
{
    let mut args: Vec<String> = Vec::new();
    args.push("-u".to_owned());
    args.push("-b".to_owned());
    args.push("0".to_owned());
    args.push("-f".to_owned());
    args.push(config.to_owned());
    args.push("GET TIME_STATUS_NP".to_owned());
    args.push("GET PORT_DATA_SET".to_owned());
    args.push("GET CURRENT_DATA_SET".to_owned());
    assert(args_view(args@) =~= pmc_args_of(config@));
    args
}

} // verus!
