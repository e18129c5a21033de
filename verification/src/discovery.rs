use vstd::prelude::*;
use crate::text::{chars_of, contains, contains_exec, starts_with, starts_with_exec};

verus! {

/// `s[i..j]` is one line of `s`: it starts at the beginning or after a
/// newline, ends at the end or at a newline, and holds no newline.
pub open spec fn is_line_span(s: Seq<char>, i: int, j: int) -> bool {
    &&& 0 <= i <= j <= s.len()
    &&& (i == 0 || s[i - 1] == '\n')
    &&& (j == s.len() || s[j] == '\n')
    &&& forall|k: int| i <= k < j ==> s[k] != '\n'
}

/// A line of `adb devices` output that lists an attached device: not empty,
/// not the "List of devices" header, and containing the word `device`.
/// (A trailing carriage return does not change this.)
pub open spec fn is_device_line(line: Seq<char>) -> bool {
    &&& line.len() > 0
    &&& !starts_with(line, "List of devices"@)
    &&& contains(line, "device"@)
}

/// `adb devices` output lists at least one attached device.
pub open spec fn lists_device(out: Seq<char>) -> bool {
    exists|i: int, j: int| is_line_span(out, i, j) && #[trigger] is_device_line(out.subrange(i, j))
}

/// Position of the first newline at or after `from`, or the end.
fn find_newline(s: &Vec<char>, from: usize) -> (end: usize)
    requires
        from <= s@.len(),
    ensures
        from <= end <= s@.len(),
        forall|k: int| from <= k < end ==> s@[k] != '\n',
        end == s@.len() || s@[end as int] == '\n',
{
    let mut end = from;
    while end < s.len() && s[end] != '\n'
        invariant
            from <= end <= s@.len(),
            forall|k: int| from <= k < end ==> s@[k] != '\n',
        decreases s@.len() - end,
    {
        end += 1;
    }
    end
}

/// The characters `s[from..to]`.
fn sub_chars(s: &Vec<char>, from: usize, to: usize) -> (r: Vec<char>)
    requires
        from <= to <= s@.len(),
    ensures
        r@ == s@.subrange(from as int, to as int),
{
    let mut r: Vec<char> = Vec::new();
    let mut k = from;
    while k < to
        invariant
            from <= k <= to,
            to <= s@.len(),
            r@ == s@.subrange(from as int, k as int),
        decreases to - k,
    {
        r.push(s[k]);
        k += 1;
        assert(r@ =~= s@.subrange(from as int, k as int));
    }
    r
}

/// Whether one line lists an attached device.
fn is_device_line_exec(line: &Vec<char>) -> (r: bool)
    ensures
        r == is_device_line(line@),
{
    if line.len() == 0 {
        return false;
    }
    let header = chars_of("List of devices");
    if starts_with_exec(line, &header) {
        return false;
    }
    let word = chars_of("device");
    contains_exec(line, &word)
}

/// Whether `adb devices` output lists at least one attached device, i.e.
/// whether a phone is connected with USB debugging enabled.
pub fn has_connected_device(adb_output: &str) -> (found: bool)
    ensures
        found == lists_device(adb_output@),
{
    let s = chars_of(adb_output);
    let n = s.len();
    let mut start: usize = 0;
    loop
        invariant
            n == s@.len(),
            s@ == adb_output@,
            start <= n,
            start == 0 || s@[start - 1] == '\n',
            forall|i: int, j: int|
                is_line_span(s@, i, j) && i < start ==> !#[trigger] is_device_line(
                    s@.subrange(i, j),
                ),
        ensures
            forall|i: int, j: int|
                is_line_span(s@, i, j) ==> !#[trigger] is_device_line(s@.subrange(i, j)),
        decreases n - start,
    {
        let end = find_newline(&s, start);
        let line = sub_chars(&s, start, end);
        if is_device_line_exec(&line) {
            assert(is_line_span(s@, start as int, end as int));
            return true;
        }
        assert forall|i: int, j: int|
            is_line_span(s@, i, j) && i <= end implies !#[trigger] is_device_line(
            s@.subrange(i, j),
        ) by {
            if i >= start {
                if i > start {
                    assert(s@[i - 1] != '\n');
                }
                assert(i == start);
                if j < end {
                    assert(s@[j] != '\n');
                }
                if j > end {
                    assert(s@[end as int] != '\n');
                }
                assert(j == end);
            }
        }
        if end == n {
            break;
        }
        start = end + 1;
    }
    false
}

/// The arguments of the `adb` broadcast that tells the phone app how to
/// reach this workstation.
pub open spec fn broadcast_args_text(host: Seq<char>, lan_ip: Seq<char>, tailscale_ip: Seq<char>) -> Seq<
    Seq<char>,
> {
    seq![
        "shell"@,
        "am"@,
        "broadcast"@,
        "-a"@,
        "com.nyxframe.app.DISCOVER_IP"@,
        "--es"@,
        "host_name"@,
        host,
        "--es"@,
        "lan_ip"@,
        lan_ip,
        "--es"@,
        "tailscale_ip"@,
        tailscale_ip,
    ]
}

/// Builds the `adb` arguments of the discovery broadcast carrying the host
/// name, the LAN address and the Tailscale address.
pub fn discovery_broadcast_args(host: &str, lan_ip: &str, tailscale_ip: &str) -> (args: Vec<String>)
    ensures
        args@.map_values(|a: String| a@) == broadcast_args_text(host@, lan_ip@, tailscale_ip@),
{
    let mut args: Vec<String> = Vec::new();
    args.push(String::from_str("shell"));
    args.push(String::from_str("am"));
    args.push(String::from_str("broadcast"));
    args.push(String::from_str("-a"));
    args.push(String::from_str("com.nyxframe.app.DISCOVER_IP"));
    args.push(String::from_str("--es"));
    args.push(String::from_str("host_name"));
    args.push(String::from_str(host));
    args.push(String::from_str("--es"));
    args.push(String::from_str("lan_ip"));
    args.push(String::from_str(lan_ip));
    args.push(String::from_str("--es"));
    args.push(String::from_str("tailscale_ip"));
    args.push(String::from_str(tailscale_ip));
    assert(args@.map_values(|a: String| a@) =~= broadcast_args_text(host@, lan_ip@, tailscale_ip@));
    args
}

/// The workstation name to announce: the one reported, or `nyxframe` when
/// none could be read.
pub fn hostname_or_default(reported: Option<String>) -> (host: String)
    ensures
        match reported {
            Some(h) => host == h,
            None => host@ == "nyxframe"@,
        },
{
    match reported {
        Some(h) => h,
        None => String::from_str("nyxframe"),
    }
}

} // verus!
