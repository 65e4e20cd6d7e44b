//! Case-insensitive matching of process image names against the fixed
//! denylist of analysis tooling.
//!
//! A probe captures a snapshot of running process names as raw bytes. A name
//! counts as hostile when its ASCII-lowercased form contains some denylist
//! entry as a contiguous substring. The denylist itself is fixed at build
//! time: debuggers, disassemblers, decompilers, process and API monitors, and
//! traffic-interception tools.

use vstd::prelude::*;
use vstd::string::StringSliceAdditionalSpecFns;

verus! {

/// The lowercased form of one byte: an ASCII upper-case letter maps to its
/// lower-case counterpart, every other byte is unchanged.
pub open spec fn lower_byte(b: u8) -> u8 {
    if 65 <= b && b <= 90 {
        (b + 32) as u8
    } else {
        b
    }
}

/// The byte-wise ASCII lowercasing of a name.
pub open spec fn lower_bytes(s: Seq<u8>) -> Seq<u8> {
    s.map_values(|b: u8| lower_byte(b))
}

/// The needle occurs in the haystack starting at position `i`.
pub open spec fn matches_at(hay: Seq<u8>, needle: Seq<u8>, i: int) -> bool {
    &&& 0 <= i
    &&& i + needle.len() <= hay.len()
    &&& forall|k: int| 0 <= k < needle.len() ==> hay[i + k] == needle[k]
}

/// The needle occurs somewhere in the haystack as a contiguous run.
pub open spec fn is_substring(hay: Seq<u8>, needle: Seq<u8>) -> bool {
    exists|i: int| matches_at(hay, needle, i)
}

/// ASCII-lowercase a name, byte by byte.
pub fn to_lower(name: &[u8]) -> (low: Vec<u8>)
    ensures
        low@ == lower_bytes(name@),
{
    let mut low: Vec<u8> = Vec::new();
    let mut i: usize = 0;
    while i < name.len()
        invariant
            i <= name@.len(),
            low@ == lower_bytes(name@.subrange(0, i as int)),
        decreases name@.len() - i,
    {
        let b = name[i];
        if 65 <= b && b <= 90 {
            low.push(b + 32);
        } else {
            low.push(b);
        }
        proof {
            assert(lower_bytes(name@.subrange(0, i as int + 1)) =~= lower_bytes(
                name@.subrange(0, i as int),
            ).push(lower_byte(name@[i as int])));
        }
        i += 1;
    }
    proof {
        assert(name@.subrange(0, name@.len() as int) =~= name@);
    }
    low
}

/// Compare the needle against the haystack at one position.
fn matches_at_exec(hay: &[u8], needle: &[u8], i: usize) -> (m: bool)
    requires
        i + needle@.len() <= hay@.len(),
    ensures
        m == matches_at(hay@, needle@, i as int),
{
    let hay_len = hay.len();
    let mut k: usize = 0;
    while k < needle.len()
        invariant
            hay_len == hay@.len(),
            i + needle@.len() <= hay@.len(),
            k <= needle@.len(),
            forall|t: int| 0 <= t < k ==> hay@[i + t] == needle@[t],
        decreases needle@.len() - k,
    {
        if hay[i + k] != needle[k] {
            return false;
        }
        k += 1;
    }
    true
}

/// Whether `needle` occurs contiguously in `hay`.
pub fn contains_bytes(hay: &[u8], needle: &[u8]) -> (found: bool)
    ensures
        found == is_substring(hay@, needle@),
{
    if needle.len() == 0 {
        proof {
            assert(matches_at(hay@, needle@, 0));
        }
        return true;
    }
    if needle.len() > hay.len() {
        return false;
    }
    let end = hay.len() - needle.len();
    let mut i: usize = 0;
    while i <= end
        invariant
            hay@.len() <= usize::MAX,
            1 <= needle@.len() <= hay@.len(),
            end == hay@.len() - needle@.len(),
            i <= end + 1,
            forall|j: int| 0 <= j < i ==> !matches_at(hay@, needle@, j),
        decreases end + 1 - i,
    {
        if matches_at_exec(hay, needle, i) {
            return true;
        }
        i += 1;
    }
    proof {
        assert forall|j: int| !matches_at(hay@, needle@, j) by {
            if 0 <= j && j <= end as int {
                assert(!matches_at(hay@, needle@, j));
            }
        }
    }
    false
}

/// The fixed set of analysis-tool executable names, each already lower-case,
/// that must never appear inside a running process's image name.
pub open spec fn dangerous_names() -> Seq<Seq<u8>> {
    seq![
        "ollydbg.exe".spec_bytes(),
        "x64dbg.exe".spec_bytes(),
        "x32dbg.exe".spec_bytes(),
        "windbg.exe".spec_bytes(),
        "ida.exe".spec_bytes(),
        "ida64.exe".spec_bytes(),
        "idaq.exe".spec_bytes(),
        "idaq64.exe".spec_bytes(),
        "radare2.exe".spec_bytes(),
        "ghidra.exe".spec_bytes(),
        "processhacker.exe".spec_bytes(),
        "procmon.exe".spec_bytes(),
        "procexp.exe".spec_bytes(),
        "apimonitor.exe".spec_bytes(),
        "cheatengine.exe".spec_bytes(),
        "dnspy.exe".spec_bytes(),
        "reflexil.exe".spec_bytes(),
        "de4dot.exe".spec_bytes(),
        "ilspy.exe".spec_bytes(),
        "dotpeek.exe".spec_bytes(),
        "reshacker.exe".spec_bytes(),
        "pe-bear.exe".spec_bytes(),
        "pestudio.exe".spec_bytes(),
        "hxd.exe".spec_bytes(),
        "wireshark.exe".spec_bytes(),
        "fiddler.exe".spec_bytes(),
        "burpsuite.exe".spec_bytes(),
        "httpanalyzer.exe".spec_bytes(),
        "charles.exe".spec_bytes(),
        "mitmproxy.exe".spec_bytes(),
    ]
}

/// The denylist as runtime data, in the order of [`dangerous_names`].
pub fn dangerous_process_names() -> (names: Vec<&'static str>)
    ensures
        names@.len() == dangerous_names().len(),
        forall|j: int|
            0 <= j < names@.len() ==> (#[trigger] names@[j]).spec_bytes() == dangerous_names()[j],
{
    let names: Vec<&'static str> = vec![
        "ollydbg.exe",
        "x64dbg.exe",
        "x32dbg.exe",
        "windbg.exe",
        "ida.exe",
        "ida64.exe",
        "idaq.exe",
        "idaq64.exe",
        "radare2.exe",
        "ghidra.exe",
        "processhacker.exe",
        "procmon.exe",
        "procexp.exe",
        "apimonitor.exe",
        "cheatengine.exe",
        "dnspy.exe",
        "reflexil.exe",
        "de4dot.exe",
        "ilspy.exe",
        "dotpeek.exe",
        "reshacker.exe",
        "pe-bear.exe",
        "pestudio.exe",
        "hxd.exe",
        "wireshark.exe",
        "fiddler.exe",
        "burpsuite.exe",
        "httpanalyzer.exe",
        "charles.exe",
        "mitmproxy.exe",
    ];
    names
}

/// One process image name is hostile: its lowercased form contains some
/// denylist entry.
pub open spec fn name_is_dangerous(name: Seq<u8>) -> bool {
    exists|j: int|
        0 <= j < dangerous_names().len() && is_substring(lower_bytes(name), dangerous_names()[j])
}

/// Test one process image name against the denylist, case-insensitively.
pub fn name_matches_denylist(name: &[u8]) -> (hostile: bool)
    ensures
        hostile == name_is_dangerous(name@),
{
    let low = to_lower(name);
    let names = dangerous_process_names();
    let mut j: usize = 0;
    while j < names.len()
        invariant
            low@ == lower_bytes(name@),
            names@.len() == dangerous_names().len(),
            forall|t: int|
                0 <= t < names@.len() ==> (#[trigger] names@[t]).spec_bytes()
                    == dangerous_names()[t],
            j <= names@.len(),
            forall|t: int| 0 <= t < j ==> !is_substring(lower_bytes(name@), dangerous_names()[t]),
        decreases names@.len() - j,
    {
        if contains_bytes(low.as_slice(), names[j].as_bytes()) {
            return true;
        }
        j += 1;
    }
    false
}

/// Some process name captured in the snapshot is hostile.
pub open spec fn snapshot_detects(snapshot: Seq<Seq<u8>>) -> bool {
    exists|i: int| 0 <= i < snapshot.len() && name_is_dangerous(snapshot[i])
}

/// The base filename of a process image path: what follows the last
/// backslash, or the whole path when it has none.
pub open spec fn base_name(path: Seq<u8>) -> Seq<u8>
    decreases path.len(),
{
    if path.len() == 0 {
        path
    } else if path.last() == 92 {
        Seq::empty()
    } else {
        base_name(path.drop_last()).push(path.last())
    }
}

/// Past the last backslash, an unbroken run of other bytes reaches the end:
/// the base name is exactly that suffix.
proof fn lemma_base_name_suffix(s: Seq<u8>, k: int)
    requires
        0 <= k <= s.len(),
        forall|t: int| k <= t < s.len() ==> s[t] != 92,
        k == 0 || s[k - 1] == 92,
    ensures
        base_name(s) == s.subrange(k, s.len() as int),
    decreases s.len(),
{
    if s.len() == 0 {
        assert(base_name(s) =~= s.subrange(0, 0));
    } else if s.last() == 92 {
        assert(k == s.len());
        assert(base_name(s) =~= s.subrange(k, s.len() as int));
    } else {
        let d = s.drop_last();
        assert(forall|t: int| k <= t < d.len() ==> d[t] == s[t]);
        lemma_base_name_suffix(d, k);
        assert(base_name(s) =~= s.subrange(k, s.len() as int));
    }
}

/// Extract the base filename from a process image path: the component after
/// the last backslash, as the probe compares it against the denylist.
pub fn image_base_name(path: &[u8]) -> (base: Vec<u8>)
    ensures
        base@ == base_name(path@),
{
    let mut cut: usize = 0;
    let mut i: usize = 0;
    while i < path.len()
        invariant
            cut <= i <= path@.len(),
            cut == 0 || path@[cut - 1] == 92,
            forall|t: int| cut <= t < i ==> path@[t] != 92,
        decreases path@.len() - i,
    {
        if path[i] == 92 {
            cut = i + 1;
        }
        i += 1;
    }
    let mut base: Vec<u8> = Vec::new();
    let mut j: usize = cut;
    while j < path.len()
        invariant
            cut <= j <= path@.len(),
            base@ == path@.subrange(cut as int, j as int),
        decreases path@.len() - j,
    {
        base.push(path[j]);
        proof {
            assert(path@.subrange(cut as int, j as int + 1) =~= path@.subrange(
                cut as int,
                j as int,
            ).push(path@[j as int]));
        }
        j += 1;
    }
    proof {
        lemma_base_name_suffix(path@, cut as int);
    }
    base
}

} // verus!
