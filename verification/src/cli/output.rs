//! The text the command-line tool prints for the daemon's answers: tables
//! of networks, volumes and services, and their detailed descriptions.
//!
//! Each renderer returns the lines to print, in order; a line may itself
//! start with a line break, as a blank line before a section.

use vstd::prelude::*;

use crate::text::{chars_of, decimal, owned, push_char, push_decimal, push_str, string_of, utf8, utf8_char};

use crate::error::{debug_list, debug_list_text};
use crate::format::{format_size, size_text as byte_size_text};
use crate::network::capability::Capabilities;
use crate::policy::model::names_view;
use crate::api::mortar::{DeployMortarResponse, ListProjectsResponse, ProjectServicesResponse};
use crate::api::services::{InstanceInfo, ServiceDetail, ServiceInfo};

use super::client::{DaemonInfo, NetworkDetail, NetworkInfo, VolumeDetail, VolumeInfo};

verus! {

/// `n` spaces.
pub open spec fn spaces(n: nat) -> Seq<char> {
    Seq::new(n, |i: int| ' ')
}

/// `s` left-aligned in a column of width `w`: padded with spaces up to `w`
/// characters, and left whole when it is longer.
pub open spec fn pad(s: Seq<char>, w: nat) -> Seq<char> {
    if s.len() >= w { s } else { s + spaces((w - s.len()) as nat) }
}

/// The length of `s` in bytes, encoded as UTF-8.
pub open spec fn byte_len(s: Seq<char>) -> nat {
    utf8(s).len()
}

/// Some prefix of `s` is exactly `n` bytes long.
pub open spec fn cuts_at(s: Seq<char>, n: nat) -> bool {
    exists|k: int| 0 <= k <= s.len() && #[trigger] byte_len(s.take(k)) == n
}

/// `s` can be cut after `n` bytes: it is at most `n` bytes long, or its
/// first `n` bytes are whole characters.
pub open spec fn cuttable(s: Seq<char>, n: nat) -> bool {
    byte_len(s) <= n || cuts_at(s, n)
}

/// The first `n` bytes of `s`, when it is longer.
pub open spec fn cut_text(s: Seq<char>, n: nat) -> Seq<char> {
    if byte_len(s) <= n {
        s
    } else {
        s.take(choose|k: int| 0 <= k <= s.len() && #[trigger] byte_len(s.take(k)) == n)
    }
}

/// An ID can be shortened for display: it is at most 12 bytes long, or its
/// first 12 bytes are whole characters.
pub open spec fn shortenable(s: Seq<char>) -> bool {
    cuttable(s, 12)
}

/// An ID as shown in tables: its first 12 bytes when it is longer.
pub open spec fn short_id_text(s: Seq<char>) -> Seq<char> {
    cut_text(s, 12)
}

proof fn lemma_utf8_char_nonempty(c: char)
    ensures
        1 <= utf8_char(c).len() <= 4,
{
}

/// Encoding one more character makes the encoding of a prefix longer.
proof fn lemma_byte_len_step(s: Seq<char>, k: int)
    requires
        0 <= k < s.len(),
    ensures
        byte_len(s.take(k + 1)) == byte_len(s.take(k)) + utf8_char(s[k]).len(),
        byte_len(s.take(k)) < byte_len(s.take(k + 1)),
{
    assert(s.take(k + 1).drop_last() =~= s.take(k));
    lemma_utf8_char_nonempty(s[k]);
}

/// Longer prefixes have longer encodings.
proof fn lemma_byte_len_grows(s: Seq<char>, i: int, j: int)
    requires
        0 <= i < j <= s.len(),
    ensures
        byte_len(s.take(i)) < byte_len(s.take(j)),
    decreases j - i,
{
    lemma_byte_len_step(s, j - 1);
    if i < j - 1 {
        lemma_byte_len_grows(s, i, j - 1);
    }
}

/// The number of bytes of a character's UTF-8 encoding.
fn char_byte_len(c: char) -> (r: usize)
    ensures
        r == utf8_char(c).len(),
{
    let n = c as u32;
    if n < 0x80 {
        1
    } else if n < 0x800 {
        2
    } else if n < 0x10000 {
        3
    } else {
        4
    }
}

/// The first `n` bytes of a text, when it is longer.
fn cut(id: &str, n: usize) -> (r: String)
    requires
        cuttable(id@, n as nat),
    ensures
        r@ == cut_text(id@, n as nat),
{
    let cs = chars_of(id);
    let ghost s = id@;
    let ghost k: int = if byte_len(s) <= n {
        s.len() as int
    } else {
        choose|k: int| 0 <= k <= s.len() && #[trigger] byte_len(s.take(k)) == n
    };
    proof {
        assert(s.take(s.len() as int) =~= s);
    }
    let mut out: Vec<char> = Vec::new();
    let mut bytes: usize = 0;
    let mut i: usize = 0;
    while i < cs.len() && bytes < n
        invariant
            cs@ == s,
            s.take(s.len() as int) == s,
            cuttable(s, n as nat),
            0 <= k <= s.len(),
            byte_len(s) <= n ==> k == s.len(),
            byte_len(s) > n ==> byte_len(s.take(k)) == n,
            i <= k,
            bytes == byte_len(s.take(i as int)),
            out@ == s.take(i as int),
        decreases cs.len() - i,
    {
        proof {
            if i as int == k {
                if byte_len(s) > n {
                    assert(bytes == n);
                } else {
                    assert(i == s.len());
                }
            }
            assert((i as int) < k);
            lemma_byte_len_step(s, i as int);
            if (i as int) + 1 < k {
                lemma_byte_len_grows(s, i + 1, k);
            }
            if byte_len(s) <= n && (i as int) + 1 < s.len() {
                lemma_byte_len_grows(s, i + 1, s.len() as int);
            }
            assert(byte_len(s.take(i + 1)) <= n);
        }
        bytes = bytes + char_byte_len(cs[i]);
        out.push(cs[i]);
        assert(out@ =~= s.take(i + 1));
        i = i + 1;
    }
    proof {
        if byte_len(s) <= n {
            if i < s.len() {
                lemma_byte_len_grows(s, i as int, s.len() as int);
            }
            assert(i == s.len());
            assert(out@ =~= s);
        } else {
            if (i as int) < k {
                lemma_byte_len_grows(s, i as int, k);
                assert(i == s.len());
                assert(false);
            }
            assert(i == k);
        }
    }
    string_of(&out)
}

/// An ID as shown in tables: its first 12 bytes when it is longer.
pub fn short_id(id: &str) -> (r: String)
    requires
        shortenable(id@),
    ensures
        r@ == short_id_text(id@),
{
    cut(id, 12)
}

/// Appends `t` to `s`, padded to a column of width `w`.
fn push_padded(s: &mut String, t: &str, w: usize)
    ensures
        final(s)@ == old(s)@ + pad(t@, w as nat),
{
    push_str(s, t);
    let n = chars_of(t).len();
    let mut k: usize = n;
    while k < w
        invariant
            n == t@.len(),
            n <= k <= w || (k == n && n >= w),
            s@ == old(s)@ + t@ + spaces((k - n) as nat),
        decreases w - k,
    {
        push_char(s, ' ');
        assert(spaces((k - n) as nat).push(' ') =~= spaces((k + 1 - n) as nat));
        k = k + 1;
    }
    proof {
        if n >= w {
            assert(spaces(0) =~= Seq::<char>::empty());
            assert(s@ =~= old(s)@ + pad(t@, w as nat));
        } else {
            assert(k == w);
            assert(s@ =~= old(s)@ + pad(t@, w as nat));
        }
    }
}

/// A five-column table row: widths 12, 20, 10 and 8, the last column as is.
pub open spec fn table_row(a: Seq<char>, b: Seq<char>, c: Seq<char>, d: Seq<char>, e: Seq<char>) -> Seq<char> {
    pad(a, 12) + " "@ + pad(b, 20) + " "@ + pad(c, 10) + " "@ + pad(d, 8) + " "@ + e
}

fn table_row_string(a: &str, b: &str, c: &str, d: &str, e: &str) -> (r: String)
    ensures
        r@ == table_row(a@, b@, c@, d@, e@),
{
    let mut s = String::new();
    push_padded(&mut s, a, 12);
    push_str(&mut s, " ");
    push_padded(&mut s, b, 20);
    push_str(&mut s, " ");
    push_padded(&mut s, c, 10);
    push_str(&mut s, " ");
    push_padded(&mut s, d, 8);
    push_str(&mut s, " ");
    push_str(&mut s, e);
    assert(s@ =~= table_row(a@, b@, c@, d@, e@));
    s
}

/// The texts of a list of lines.
pub open spec fn lines_view(v: Seq<String>) -> Seq<Seq<char>> {
    v.map_values(|s: String| s@)
}

/// "<label><value>".
fn labelled(label: &str, value: &str) -> (r: String)
    ensures
        r@ == label@ + value@,
{
    let mut s = owned(label);
    push_str(&mut s, value);
    s
}

/// The table row of a network.
pub open spec fn network_row(n: NetworkInfo) -> Seq<char> {
    table_row(short_id_text(n.id@), n.name@, n.access@, decimal(n.member_count as nat), n.created_at@)
}

/// The lines listing networks: "No networks found", or a header and one
/// row per network.
pub open spec fn network_list_text(networks: Seq<NetworkInfo>) -> Seq<Seq<char>> {
    if networks.len() == 0 {
        seq!["No networks found"@]
    } else {
        seq![table_row("ID"@, "NAME"@, "ACCESS"@, "MEMBERS"@, "CREATED"@)]
            + networks.map_values(|n: NetworkInfo| network_row(n))
    }
}

/// Renders the list of networks.
pub fn network_list_lines(networks: &Vec<NetworkInfo>) -> (r: Vec<String>)
    requires
        forall|i: int| 0 <= i < networks@.len() ==> shortenable(#[trigger] networks@[i].id@),
    ensures
        lines_view(r@) == network_list_text(networks@),
{
    let mut out: Vec<String> = Vec::new();
    if networks.len() == 0 {
        out.push(owned("No networks found"));
        assert(lines_view(out@) =~= network_list_text(networks@));
        return out;
    }
    out.push(table_row_string("ID", "NAME", "ACCESS", "MEMBERS", "CREATED"));
    let mut i: usize = 0;
    while i < networks.len()
        invariant
            i <= networks@.len(),
            networks@.len() > 0,
            forall|j: int| 0 <= j < networks@.len() ==> shortenable(#[trigger] networks@[j].id@),
            lines_view(out@) == seq![table_row("ID"@, "NAME"@, "ACCESS"@, "MEMBERS"@, "CREATED"@)]
                + networks@.take(i as int).map_values(|n: NetworkInfo| network_row(n)),
        decreases networks.len() - i,
    {
        let n = &networks[i];
        let id = short_id(n.id.as_str());
        let count = crate::text::decimal_string(n.member_count as u64);
        let row = table_row_string(id.as_str(), n.name.as_str(), n.access.as_str(), count.as_str(), n.created_at.as_str());
        let ghost before = lines_view(out@);
        out.push(row);
        assert(lines_view(out@) =~= before.push(network_row(networks@[i as int])));
        assert(networks@.take(i + 1).map_values(|n: NetworkInfo| network_row(n))
            =~= networks@.take(i as int).map_values(|n: NetworkInfo| network_row(n)).push(network_row(networks@[i as int])));
        assert(lines_view(out@) =~= seq![table_row("ID"@, "NAME"@, "ACCESS"@, "MEMBERS"@, "CREATED"@)]
            + networks@.take(i + 1).map_values(|n: NetworkInfo| network_row(n)));
        i = i + 1;
    }
    assert(networks@.take(networks@.len() as int) =~= networks@);
    out
}

/// The member lines of a description: "(none)", or a count and one short
/// ID per member.
pub open spec fn member_text(title: Seq<char>, members: Seq<String>) -> Seq<Seq<char>> {
    if members.len() == 0 {
        seq!["\n"@ + title + ": (none)"@]
    } else {
        seq!["\n"@ + title + " ("@ + decimal(members.len()) + "):"@]
            + members.map_values(|m: String| "  "@ + short_id_text(m@))
    }
}

/// Renders a member section.
fn member_lines(out: &mut Vec<String>, title: &str, members: &Vec<String>)
    requires
        forall|i: int| 0 <= i < members@.len() ==> shortenable(#[trigger] members@[i]@),
    ensures
        lines_view(final(out)@) == lines_view(old(out)@) + member_text(title@, members@),
{
    let ghost start = lines_view(out@);
    if members.len() == 0 {
        let mut s = owned("\n");
        push_str(&mut s, title);
        push_str(&mut s, ": (none)");
        out.push(s);
        assert(lines_view(out@) =~= start + member_text(title@, members@));
        return;
    }
    let mut head = owned("\n");
    push_str(&mut head, title);
    push_str(&mut head, " (");
    push_decimal(&mut head, members.len() as u64);
    push_str(&mut head, "):");
    out.push(head);
    let mut i: usize = 0;
    while i < members.len()
        invariant
            i <= members@.len(),
            members@.len() > 0,
            forall|j: int| 0 <= j < members@.len() ==> shortenable(#[trigger] members@[j]@),
            lines_view(out@) == start + seq!["\n"@ + title@ + " ("@ + decimal(members@.len()) + "):"@]
                + members@.take(i as int).map_values(|m: String| "  "@ + short_id_text(m@)),
        decreases members.len() - i,
    {
        let id = short_id(members[i].as_str());
        let ghost before = lines_view(out@);
        out.push(labelled("  ", id.as_str()));
        assert(lines_view(out@) =~= before.push("  "@ + short_id_text(members@[i as int]@)));
        assert(members@.take(i + 1).map_values(|m: String| "  "@ + short_id_text(m@))
            =~= members@.take(i as int).map_values(|m: String| "  "@ + short_id_text(m@)).push("  "@ + short_id_text(members@[i as int]@)));
        assert(lines_view(out@) =~= start + seq!["\n"@ + title@ + " ("@ + decimal(members@.len()) + "):"@]
            + members@.take(i + 1).map_values(|m: String| "  "@ + short_id_text(m@)));
        i = i + 1;
    }
    assert(members@.take(members@.len() as int) =~= members@);
    assert(lines_view(out@) =~= start + member_text(title@, members@));
}

/// The description of a network.
pub open spec fn network_detail_text(d: NetworkDetail) -> Seq<Seq<char>> {
    seq!["Network: "@ + d.name@, "  ID:          "@ + d.id@]
        + match d.description {
            Some(desc) => seq!["  Description: "@ + desc@],
            None => Seq::empty(),
        }
        + seq![
            "  Access:      "@ + d.access@,
            "  Isolation:   "@ + d.isolation@,
            "  Encryption:  "@ + d.encryption@,
            "  Audit:       "@ + d.audit@,
            "  Created:     "@ + d.created_at@,
            "  Updated:     "@ + d.updated_at@,
        ]
        + member_text("Members"@, d.members@)
}

/// Renders the description of a network.
pub fn network_detail_lines(detail: &NetworkDetail) -> (r: Vec<String>)
    requires
        forall|i: int| 0 <= i < detail.members@.len() ==> shortenable(#[trigger] detail.members@[i]@),
    ensures
        lines_view(r@) == network_detail_text(*detail),
{
    let mut out: Vec<String> = Vec::new();
    out.push(labelled("Network: ", detail.name.as_str()));
    out.push(labelled("  ID:          ", detail.id.as_str()));
    let ghost head = lines_view(out@);
    match &detail.description {
        Some(desc) => {
            out.push(labelled("  Description: ", desc.as_str()));
        },
        None => {},
    }
    let ghost mid = lines_view(out@);
    out.push(labelled("  Access:      ", detail.access.as_str()));
    out.push(labelled("  Isolation:   ", detail.isolation.as_str()));
    out.push(labelled("  Encryption:  ", detail.encryption.as_str()));
    out.push(labelled("  Audit:       ", detail.audit.as_str()));
    out.push(labelled("  Created:     ", detail.created_at.as_str()));
    out.push(labelled("  Updated:     ", detail.updated_at.as_str()));
    let ghost fixed = lines_view(out@);
    member_lines(&mut out, "Members", &detail.members);
    proof {
        let d = *detail;
        assert(head =~= seq!["Network: "@ + d.name@, "  ID:          "@ + d.id@]);
        assert(mid =~= head + match d.description {
            Some(desc) => seq!["  Description: "@ + desc@],
            None => Seq::<Seq<char>>::empty(),
        });
        assert(fixed =~= mid + seq![
            "  Access:      "@ + d.access@,
            "  Isolation:   "@ + d.isolation@,
            "  Encryption:  "@ + d.encryption@,
            "  Audit:       "@ + d.audit@,
            "  Created:     "@ + d.created_at@,
            "  Updated:     "@ + d.updated_at@,
        ]);
        assert(lines_view(out@) =~= network_detail_text(d));
    }
    out
}

/// The size a volume shows: its limit, or "-".
pub open spec fn size_text(size: Option<String>) -> Seq<char> {
    match size {
        Some(s) => s@,
        None => "-"@,
    }
}

/// The table row of a volume.
pub open spec fn volume_row(v: VolumeInfo) -> Seq<char> {
    table_row(short_id_text(v.id@), v.name@, size_text(v.size), decimal(v.mount_count as nat), v.created_at@)
}

/// The lines listing volumes: "No volumes found", or a header and one row
/// per volume.
pub open spec fn volume_list_text(volumes: Seq<VolumeInfo>) -> Seq<Seq<char>> {
    if volumes.len() == 0 {
        seq!["No volumes found"@]
    } else {
        seq![table_row("ID"@, "NAME"@, "SIZE"@, "MOUNTS"@, "CREATED"@)]
            + volumes.map_values(|v: VolumeInfo| volume_row(v))
    }
}

/// Renders the list of volumes.
pub fn volume_list_lines(volumes: &Vec<VolumeInfo>) -> (r: Vec<String>)
    requires
        forall|i: int| 0 <= i < volumes@.len() ==> shortenable(#[trigger] volumes@[i].id@),
    ensures
        lines_view(r@) == volume_list_text(volumes@),
{
    let mut out: Vec<String> = Vec::new();
    if volumes.len() == 0 {
        out.push(owned("No volumes found"));
        assert(lines_view(out@) =~= volume_list_text(volumes@));
        return out;
    }
    out.push(table_row_string("ID", "NAME", "SIZE", "MOUNTS", "CREATED"));
    let mut i: usize = 0;
    while i < volumes.len()
        invariant
            i <= volumes@.len(),
            volumes@.len() > 0,
            forall|j: int| 0 <= j < volumes@.len() ==> shortenable(#[trigger] volumes@[j].id@),
            lines_view(out@) == seq![table_row("ID"@, "NAME"@, "SIZE"@, "MOUNTS"@, "CREATED"@)]
                + volumes@.take(i as int).map_values(|v: VolumeInfo| volume_row(v)),
        decreases volumes.len() - i,
    {
        let v = &volumes[i];
        let id = short_id(v.id.as_str());
        let count = crate::text::decimal_string(v.mount_count as u64);
        let size = match &v.size {
            Some(sz) => sz.as_str(),
            None => "-",
        };
        let row = table_row_string(id.as_str(), v.name.as_str(), size, count.as_str(), v.created_at.as_str());
        let ghost before = lines_view(out@);
        out.push(row);
        assert(lines_view(out@) =~= before.push(volume_row(volumes@[i as int])));
        assert(volumes@.take(i + 1).map_values(|v: VolumeInfo| volume_row(v))
            =~= volumes@.take(i as int).map_values(|v: VolumeInfo| volume_row(v)).push(volume_row(volumes@[i as int])));
        i = i + 1;
    }
    assert(volumes@.take(volumes@.len() as int) =~= volumes@);
    out
}

/// The description of a volume.
pub open spec fn volume_detail_text(d: VolumeDetail) -> Seq<Seq<char>> {
    seq!["Volume: "@ + d.name@, "  ID:          "@ + d.id@]
        + match d.description {
            Some(desc) => seq!["  Description: "@ + desc@],
            None => Seq::empty(),
        }
        + match d.size {
            Some(sz) => seq!["  Size:        "@ + sz@],
            None => Seq::empty(),
        }
        + seq![
            "  Path:        "@ + d.path@,
            "  Created:     "@ + d.created_at@,
            "  Updated:     "@ + d.updated_at@,
        ]
        + member_text("Mounted by"@, d.mounted_by@)
}

/// Renders the description of a volume.
pub fn volume_detail_lines(detail: &VolumeDetail) -> (r: Vec<String>)
    requires
        forall|i: int| 0 <= i < detail.mounted_by@.len() ==> shortenable(#[trigger] detail.mounted_by@[i]@),
    ensures
        lines_view(r@) == volume_detail_text(*detail),
{
    let mut out: Vec<String> = Vec::new();
    out.push(labelled("Volume: ", detail.name.as_str()));
    out.push(labelled("  ID:          ", detail.id.as_str()));
    let ghost head = lines_view(out@);
    match &detail.description {
        Some(desc) => {
            out.push(labelled("  Description: ", desc.as_str()));
        },
        None => {},
    }
    let ghost mid = lines_view(out@);
    match &detail.size {
        Some(sz) => {
            out.push(labelled("  Size:        ", sz.as_str()));
        },
        None => {},
    }
    let ghost mid2 = lines_view(out@);
    out.push(labelled("  Path:        ", detail.path.as_str()));
    out.push(labelled("  Created:     ", detail.created_at.as_str()));
    out.push(labelled("  Updated:     ", detail.updated_at.as_str()));
    let ghost fixed = lines_view(out@);
    member_lines(&mut out, "Mounted by", &detail.mounted_by);
    proof {
        let d = *detail;
        assert(head =~= seq!["Volume: "@ + d.name@, "  ID:          "@ + d.id@]);
        assert(mid =~= head + match d.description {
            Some(desc) => seq!["  Description: "@ + desc@],
            None => Seq::<Seq<char>>::empty(),
        });
        assert(mid2 =~= mid + match d.size {
            Some(sz) => seq!["  Size:        "@ + sz@],
            None => Seq::<Seq<char>>::empty(),
        });
        assert(fixed =~= mid2 + seq![
            "  Path:        "@ + d.path@,
            "  Created:     "@ + d.created_at@,
            "  Updated:     "@ + d.updated_at@,
        ]);
        assert(lines_view(out@) =~= volume_detail_text(d));
    }
    out
}

/// A five-column service row: widths 12, 20, 10, 10 and 10.
pub open spec fn service_row_text(a: Seq<char>, b: Seq<char>, c: Seq<char>, d: Seq<char>, e: Seq<char>) -> Seq<char> {
    pad(a, 12) + " "@ + pad(b, 20) + " "@ + pad(c, 10) + " "@ + pad(d, 10) + " "@ + pad(e, 10)
}

fn service_row_string(a: &str, b: &str, c: &str, d: &str, e: &str) -> (r: String)
    ensures
        r@ == service_row_text(a@, b@, c@, d@, e@),
{
    let mut s = String::new();
    push_padded(&mut s, a, 12);
    push_str(&mut s, " ");
    push_padded(&mut s, b, 20);
    push_str(&mut s, " ");
    push_padded(&mut s, c, 10);
    push_str(&mut s, " ");
    push_padded(&mut s, d, 10);
    push_str(&mut s, " ");
    push_padded(&mut s, e, 10);
    assert(s@ =~= service_row_text(a@, b@, c@, d@, e@));
    s
}

/// "<ready>/<desired>".
pub open spec fn replicas_text(ready: usize, desired: usize) -> Seq<char> {
    decimal(ready as nat) + "/"@ + decimal(desired as nat)
}

fn replicas_string(ready: usize, desired: usize) -> (r: String)
    ensures
        r@ == replicas_text(ready, desired),
{
    let mut s = String::new();
    push_decimal(&mut s, ready as u64);
    push_str(&mut s, "/");
    push_decimal(&mut s, desired as u64);
    assert(s@ =~= replicas_text(ready, desired));
    s
}

/// The table row of a service.
pub open spec fn service_row(v: ServiceInfo) -> Seq<char> {
    service_row_text(v.id@, v.name@, v.version@, v.state@, replicas_text(v.replicas.ready, v.replicas.desired))
}

/// The lines listing services: "No services running.", or a header, a
/// rule, one row per service, a blank line and the total.
pub open spec fn service_list_text(services: Seq<ServiceInfo>, total: usize) -> Seq<Seq<char>> {
    if services.len() == 0 {
        seq!["No services running."@]
    } else {
        seq![service_row_text("ID"@, "NAME"@, "VERSION"@, "STATE"@, "REPLICAS"@), Seq::new(62, |i: int| '-')]
            + services.map_values(|v: ServiceInfo| service_row(v))
            + seq![Seq::<char>::empty(), total_text(total, "service"@)]
    }
}

/// Renders the list of services.
pub fn service_list_lines(services: &Vec<ServiceInfo>, total: usize) -> (r: Vec<String>)
    ensures
        lines_view(r@) == service_list_text(services@, total),
{
    let mut out: Vec<String> = Vec::new();
    if services.len() == 0 {
        out.push(owned("No services running."));
        assert(lines_view(out@) =~= service_list_text(services@, total));
        return out;
    }
    out.push(service_row_string("ID", "NAME", "VERSION", "STATE", "REPLICAS"));
    let mut rule = String::new();
    let mut k: usize = 0;
    while k < 62
        invariant
            k <= 62,
            rule@ == Seq::new(k as nat, |i: int| '-'),
        decreases 62 - k,
    {
        push_char(&mut rule, '-');
        assert(rule@ =~= Seq::new((k + 1) as nat, |i: int| '-'));
        k = k + 1;
    }
    out.push(rule);
    let ghost head = lines_view(out@);
    let mut i: usize = 0;
    while i < services.len()
        invariant
            i <= services@.len(),
            lines_view(out@) == head + services@.take(i as int).map_values(|v: ServiceInfo| service_row(v)),
        decreases services.len() - i,
    {
        let v = &services[i];
        let reps = replicas_string(v.replicas.ready, v.replicas.desired);
        let row = service_row_string(v.id.as_str(), v.name.as_str(), v.version.as_str(), v.state.as_str(), reps.as_str());
        let ghost before = lines_view(out@);
        out.push(row);
        assert(lines_view(out@) =~= before.push(service_row(services@[i as int])));
        assert(services@.take(i + 1).map_values(|v: ServiceInfo| service_row(v))
            =~= services@.take(i as int).map_values(|v: ServiceInfo| service_row(v)).push(service_row(services@[i as int])));
        i = i + 1;
    }
    assert(services@.take(services@.len() as int) =~= services@);
    let ghost rows = lines_view(out@);
    out.push(String::new());
    out.push(total_line(total, "service"));
    assert(lines_view(out@) =~= rows + seq![Seq::<char>::empty(), total_text(total, "service"@)]);
    assert(lines_view(out@) =~= service_list_text(services@, total));
    out
}

/// Texts joined with ", ".
pub open spec fn comma_joined(items: Seq<Seq<char>>) -> Seq<char>
    decreases items.len(),
{
    if items.len() == 0 {
        Seq::empty()
    } else if items.len() == 1 {
        items[0]
    } else {
        comma_joined(items.drop_last()) + ", "@ + items.last()
    }
}

fn join_comma(items: &Vec<String>) -> (r: String)
    ensures
        r@ == comma_joined(names_view(items@)),
{
    let ghost v = names_view(items@);
    let mut s = String::new();
    let mut i: usize = 0;
    while i < items.len()
        invariant
            i <= items@.len(),
            v == names_view(items@),
            s@ == comma_joined(v.take(i as int)),
        decreases items.len() - i,
    {
        if i > 0 {
            push_str(&mut s, ", ");
        }
        push_str(&mut s, items[i].as_str());
        proof {
            let t = v.take(i + 1);
            assert(t.drop_last() =~= v.take(i as int));
            if i == 0 {
                assert(v.take(0) =~= Seq::<Seq<char>>::empty());
                assert(t.len() == 1);
                assert(s@ =~= comma_joined(t));
            } else {
                assert(s@ =~= comma_joined(t));
            }
        }
        i = i + 1;
    }
    assert(v.take(v.len() as int) =~= v);
    s
}

/// The line of one instance: "  - <id> (<state>) started: <time or N/A>".
pub open spec fn instance_text(i: InstanceInfo) -> Seq<char> {
    "  - "@ + i.id@ + " ("@ + i.state@ + ") started: "@ + match i.started_at {
        Some(t) => t@,
        None => "N/A"@,
    }
}

/// The description of a service.
pub open spec fn service_detail_text(d: ServiceDetail) -> Seq<Seq<char>> {
    seq![
        "Service: "@ + d.name@,
        "  ID:         "@ + d.id@,
        "  Version:    "@ + d.version@,
        "  State:      "@ + d.state@,
        "  Type:       "@ + d.config.service_type@,
        "  Replicas:   "@ + replicas_text(d.replicas.ready, d.replicas.desired),
        "  Created:    "@ + d.created_at@,
        "  Updated:    "@ + d.updated_at@,
        "  WASM:       "@ + d.config.wasm_path@,
        "  Digest:     "@ + d.config.wasm_digest@,
    ]
        + (if d.config.networks@.len() > 0 {
            seq!["  Networks:   "@ + comma_joined(names_view(d.config.networks@))]
        } else {
            Seq::empty()
        })
        + match d.config.mortar_project {
            Some(p) => seq!["  Project:    "@ + p@],
            None => Seq::empty(),
        }
        + match d.last_error {
            Some(e) => seq!["  Last Error: "@ + e@],
            None => Seq::empty(),
        }
        + (if d.instances@.len() > 0 {
            seq![Seq::<char>::empty(), "Instances:"@] + d.instances@.map_values(|i: InstanceInfo| instance_text(i))
        } else {
            Seq::empty()
        })
}

/// Renders the description of a service.
pub fn service_detail_lines(detail: &ServiceDetail) -> (r: Vec<String>)
    ensures
        lines_view(r@) == service_detail_text(*detail),
{
    let d = detail;
    let mut out: Vec<String> = Vec::new();
    out.push(labelled("Service: ", d.name.as_str()));
    out.push(labelled("  ID:         ", d.id.as_str()));
    out.push(labelled("  Version:    ", d.version.as_str()));
    out.push(labelled("  State:      ", d.state.as_str()));
    out.push(labelled("  Type:       ", d.config.service_type.as_str()));
    let reps = replicas_string(d.replicas.ready, d.replicas.desired);
    out.push(labelled("  Replicas:   ", reps.as_str()));
    out.push(labelled("  Created:    ", d.created_at.as_str()));
    out.push(labelled("  Updated:    ", d.updated_at.as_str()));
    out.push(labelled("  WASM:       ", d.config.wasm_path.as_str()));
    out.push(labelled("  Digest:     ", d.config.wasm_digest.as_str()));
    let ghost l0 = lines_view(out@);
    if d.config.networks.len() > 0 {
        let joined = join_comma(&d.config.networks);
        out.push(labelled("  Networks:   ", joined.as_str()));
    }
    let ghost l1 = lines_view(out@);
    match &d.config.mortar_project {
        Some(p) => {
            out.push(labelled("  Project:    ", p.as_str()));
        },
        None => {},
    }
    let ghost l2 = lines_view(out@);
    match &d.last_error {
        Some(e) => {
            out.push(labelled("  Last Error: ", e.as_str()));
        },
        None => {},
    }
    let ghost l3 = lines_view(out@);
    if d.instances.len() > 0 {
        out.push(String::new());
        out.push(owned("Instances:"));
        let ghost l4 = lines_view(out@);
        let mut i: usize = 0;
        while i < d.instances.len()
            invariant
                i <= d.instances@.len(),
                lines_view(out@) == l4 + d.instances@.take(i as int).map_values(|x: InstanceInfo| instance_text(x)),
            decreases d.instances.len() - i,
        {
            let inst = &d.instances[i];
            let mut line = owned("  - ");
            push_str(&mut line, inst.id.as_str());
            push_str(&mut line, " (");
            push_str(&mut line, inst.state.as_str());
            push_str(&mut line, ") started: ");
            match &inst.started_at {
                Some(t) => push_str(&mut line, t.as_str()),
                None => push_str(&mut line, "N/A"),
            }
            let ghost before = lines_view(out@);
            out.push(line);
            assert(lines_view(out@) =~= before.push(instance_text(d.instances@[i as int])));
            assert(d.instances@.take(i + 1).map_values(|x: InstanceInfo| instance_text(x))
                =~= d.instances@.take(i as int).map_values(|x: InstanceInfo| instance_text(x)).push(instance_text(d.instances@[i as int])));
            i = i + 1;
        }
        assert(d.instances@.take(d.instances@.len() as int) =~= d.instances@);
        assert(l4 =~= l3 + seq![Seq::<char>::empty(), "Instances:"@]);
    }
    proof {
        let dv = *detail;
        assert(l0 =~= seq![
            "Service: "@ + dv.name@,
            "  ID:         "@ + dv.id@,
            "  Version:    "@ + dv.version@,
            "  State:      "@ + dv.state@,
            "  Type:       "@ + dv.config.service_type@,
            "  Replicas:   "@ + replicas_text(dv.replicas.ready, dv.replicas.desired),
            "  Created:    "@ + dv.created_at@,
            "  Updated:    "@ + dv.updated_at@,
            "  WASM:       "@ + dv.config.wasm_path@,
            "  Digest:     "@ + dv.config.wasm_digest@,
        ]);
        assert(lines_view(out@) =~= service_detail_text(dv));
    }
    out
}

/// "  - <item>" for each item.
pub open spec fn bullet_text(items: Seq<String>) -> Seq<Seq<char>> {
    items.map_values(|x: String| "  - "@ + x@)
}

fn push_bullets(out: &mut Vec<String>, items: &Vec<String>)
    ensures
        lines_view(final(out)@) == lines_view(old(out)@) + bullet_text(items@),
{
    let ghost start = lines_view(out@);
    let mut i: usize = 0;
    while i < items.len()
        invariant
            i <= items@.len(),
            lines_view(out@) == start + bullet_text(items@.take(i as int)),
        decreases items.len() - i,
    {
        let ghost before = lines_view(out@);
        out.push(labelled("  - ", items[i].as_str()));
        assert(lines_view(out@) =~= before.push("  - "@ + items@[i as int]@));
        assert(bullet_text(items@.take(i + 1)) =~= bullet_text(items@.take(i as int)).push("  - "@ + items@[i as int]@));
        i = i + 1;
    }
    assert(items@.take(items@.len() as int) =~= items@);
}

/// "Total: <n> <noun>(s)".
pub open spec fn total_text(n: usize, noun: Seq<char>) -> Seq<char> {
    "Total: "@ + decimal(n as nat) + " "@ + noun + "(s)"@
}

fn total_line(n: usize, noun: &str) -> (r: String)
    ensures
        r@ == total_text(n, noun@),
{
    let mut t = owned("Total: ");
    push_decimal(&mut t, n as u64);
    push_str(&mut t, " ");
    push_str(&mut t, noun);
    push_str(&mut t, "(s)");
    assert(t@ =~= total_text(n, noun@));
    t
}

/// The report of a deployed project: its name, the services created and
/// their number.
pub open spec fn deploy_result_text(r: DeployMortarResponse) -> Seq<Seq<char>> {
    seq!["Project '"@ + r.project@ + "' deployed successfully."@, Seq::<char>::empty(), "Services created:"@]
        + bullet_text(r.service_ids@)
        + seq![Seq::<char>::empty(), total_text(r.total, "service"@)]
}

/// Renders the report of a deployed project.
pub fn deploy_result_lines(response: &DeployMortarResponse) -> (r: Vec<String>)
    ensures
        lines_view(r@) == deploy_result_text(*response),
{
    let mut out: Vec<String> = Vec::new();
    let mut first = owned("Project '");
    push_str(&mut first, response.project.as_str());
    push_str(&mut first, "' deployed successfully.");
    out.push(first);
    out.push(String::new());
    out.push(owned("Services created:"));
    push_bullets(&mut out, &response.service_ids);
    let ghost mid = lines_view(out@);
    out.push(String::new());
    out.push(total_line(response.total, "service"));
    assert(lines_view(out@) =~= mid + seq![Seq::<char>::empty(), total_text(response.total, "service"@)]);
    assert(lines_view(out@) =~= deploy_result_text(*response));
    out
}

/// The status of a project: its name, then "No services in project.", or
/// the table of its services and their number.
pub open spec fn project_status_text(r: ProjectServicesResponse) -> Seq<Seq<char>> {
    seq!["Project: "@ + r.project@, Seq::<char>::empty()]
        + if r.services@.len() == 0 {
            seq!["No services in project."@]
        } else {
            seq![service_row_text("ID"@, "NAME"@, "VERSION"@, "STATE"@, "REPLICAS"@), Seq::new(62, |i: int| '-')]
                + r.services@.map_values(|v: ServiceInfo| service_row(v))
                + seq![Seq::<char>::empty(), total_text(r.total, "service"@)]
        }
}

/// Renders the status of a project.
pub fn project_status_lines(response: &ProjectServicesResponse) -> (r: Vec<String>)
    ensures
        lines_view(r@) == project_status_text(*response),
{
    let mut out: Vec<String> = Vec::new();
    out.push(labelled("Project: ", response.project.as_str()));
    out.push(String::new());
    let ghost head = lines_view(out@);
    let table = service_list_lines(&response.services, response.total);
    let mut rest = table;
    if response.services.len() == 0 {
        rest = Vec::new();
        rest.push(owned("No services in project."));
    }
    let ghost tail = lines_view(rest@);
    out.append(&mut rest);
    assert(lines_view(out@) =~= head + tail);
    assert(lines_view(out@) =~= project_status_text(*response));
    out
}

/// The list of projects: "No projects deployed.", or their names and
/// their number.
pub open spec fn project_list_text(r: ListProjectsResponse) -> Seq<Seq<char>> {
    if r.projects@.len() == 0 {
        seq!["No projects deployed."@]
    } else {
        seq!["Projects:"@] + bullet_text(r.projects@) + seq![Seq::<char>::empty(), total_text(r.total, "project"@)]
    }
}

/// Renders the list of projects.
pub fn project_list_lines(response: &ListProjectsResponse) -> (r: Vec<String>)
    ensures
        lines_view(r@) == project_list_text(*response),
{
    let mut out: Vec<String> = Vec::new();
    if response.projects.len() == 0 {
        out.push(owned("No projects deployed."));
        assert(lines_view(out@) =~= project_list_text(*response));
        return out;
    }
    out.push(owned("Projects:"));
    push_bullets(&mut out, &response.projects);
    let ghost mid = lines_view(out@);
    out.push(String::new());
    out.push(total_line(response.total, "project"));
    assert(lines_view(out@) =~= mid + seq![Seq::<char>::empty(), total_text(response.total, "project"@)]);
    assert(lines_view(out@) =~= project_list_text(*response));
    out
}

/// The `Debug` rendering of a list of ports: "[p1, p2, ...]".
pub open spec fn port_list_text(ports: Seq<u16>) -> Seq<char> {
    "["@ + comma_joined(ports.map_values(|p: u16| decimal(p as nat))) + "]"@
}

fn port_list_string(ports: &Vec<u16>) -> (r: String)
    ensures
        r@ == port_list_text(ports@),
{
    let ghost v = ports@.map_values(|p: u16| decimal(p as nat));
    let mut s = owned("[");
    let mut i: usize = 0;
    while i < ports.len()
        invariant
            i <= ports@.len(),
            v == ports@.map_values(|p: u16| decimal(p as nat)),
            s@ == "["@ + comma_joined(v.take(i as int)),
        decreases ports.len() - i,
    {
        if i > 0 {
            push_str(&mut s, ", ");
        }
        push_decimal(&mut s, ports[i] as u64);
        proof {
            let t = v.take(i + 1);
            assert(t.drop_last() =~= v.take(i as int));
            assert(t.last() == decimal(ports@[i as int] as nat));
            if i == 0 {
                assert(t.len() == 1);
            }
            assert(s@ =~= "["@ + comma_joined(t));
        }
        i = i + 1;
    }
    assert(v.take(v.len() as int) =~= v);
    push_str(&mut s, "]");
    s
}

/// The lines describing a list grant: "<label>: <list>" when present.
pub open spec fn grant_text(label: Seq<char>, list: Option<Vec<String>>) -> Seq<Seq<char>> {
    match list {
        Some(l) => seq![label + debug_list_text(names_view(l@))],
        None => Seq::empty(),
    }
}

fn push_grant(out: &mut Vec<String>, label: &str, list: &Option<Vec<String>>)
    ensures
        lines_view(final(out)@) == lines_view(old(out)@) + grant_text(label@, *list),
{
    let ghost start = lines_view(out@);
    match list {
        Some(l) => {
            let text = debug_list(l);
            out.push(labelled(label, text.as_str()));
        },
        None => {},
    }
    assert(lines_view(out@) =~= start + grant_text(label@, *list));
}

/// The lines describing capabilities: environment, filesystem and network
/// grants, each "(none)" when absent.
pub open spec fn capability_text(caps: Capabilities) -> Seq<Seq<char>> {
    grant_text("  Environment: "@, caps.env)
        + (if caps.env is None { seq!["  Environment: (none)"@] } else { Seq::empty() })
        + match caps.filesystem {
            Some(fs) => seq!["  Filesystem:"@]
                + grant_text("    Read: "@, fs.read)
                + grant_text("    Write: "@, fs.write)
                + grant_text("    Read/Write: "@, fs.read_write),
            None => seq!["  Filesystem: (none)"@],
        }
        + match caps.network {
            Some(net) => seq!["  Network:"@]
                + grant_text("    Connect: "@, net.connect)
                + match net.listen {
                    Some(l) => seq!["    Listen: "@ + port_list_text(l@)],
                    None => Seq::empty(),
                },
            None => seq!["  Network: (none)"@],
        }
}

/// Renders capabilities.
pub fn capability_lines(caps: &Capabilities) -> (r: Vec<String>)
    ensures
        lines_view(r@) == capability_text(*caps),
{
    let mut out: Vec<String> = Vec::new();
    push_grant(&mut out, "  Environment: ", &caps.env);
    if caps.env.is_none() {
        out.push(owned("  Environment: (none)"));
    }
    let ghost l1 = lines_view(out@);
    match &caps.filesystem {
        Some(fs) => {
            out.push(owned("  Filesystem:"));
            push_grant(&mut out, "    Read: ", &fs.read);
            push_grant(&mut out, "    Write: ", &fs.write);
            push_grant(&mut out, "    Read/Write: ", &fs.read_write);
        },
        None => {
            out.push(owned("  Filesystem: (none)"));
        },
    }
    let ghost l2 = lines_view(out@);
    match &caps.network {
        Some(net) => {
            out.push(owned("  Network:"));
            assert(lines_view(out@) =~= l2 + seq!["  Network:"@]);
            push_grant(&mut out, "    Connect: ", &net.connect);
            let ghost l3 = lines_view(out@);
            match &net.listen {
                Some(l) => {
                    let text = port_list_string(l);
                    out.push(labelled("    Listen: ", text.as_str()));
                    assert(lines_view(out@) =~= l3 + seq!["    Listen: "@ + port_list_text(l@)]);
                },
                None => {
                    assert(lines_view(out@) =~= l3 + Seq::<Seq<char>>::empty());
                },
            }
            assert(lines_view(out@) =~= l2 + seq!["  Network:"@] + grant_text("    Connect: "@, net.connect)
                + match net.listen {
                    Some(l) => seq!["    Listen: "@ + port_list_text(l@)],
                    None => Seq::<Seq<char>>::empty(),
                });
        },
        None => {
            out.push(owned("  Network: (none)"));
        },
    }
    proof {
        let c = *caps;
        assert(l1 =~= grant_text("  Environment: "@, c.env)
            + (if c.env is None { seq!["  Environment: (none)"@] } else { Seq::<Seq<char>>::empty() }));
        assert(l2 =~= l1 + match c.filesystem {
            Some(fs) => seq!["  Filesystem:"@]
                + grant_text("    Read: "@, fs.read)
                + grant_text("    Write: "@, fs.write)
                + grant_text("    Read/Write: "@, fs.read_write),
            None => seq!["  Filesystem: (none)"@],
        });
        assert(lines_view(out@) =~= capability_text(c));
    }
    out
}

/// The description of a module: its name, version, optional description,
/// authors and license, its size, and its capabilities.
pub open spec fn module_info_text(
    name: Seq<char>,
    version: Seq<char>,
    description: Option<String>,
    authors: Option<Vec<String>>,
    license: Option<String>,
    wasm_size: usize,
    caps: Capabilities,
) -> Seq<Seq<char>> {
    seq!["Name: "@ + name, "Version: "@ + version]
        + match description {
            Some(d) => seq!["Description: "@ + d@],
            None => Seq::empty(),
        }
        + match authors {
            Some(a) => seq!["Authors: "@ + comma_joined(names_view(a@))],
            None => Seq::empty(),
        }
        + match license {
            Some(l) => seq!["License: "@ + l@],
            None => Seq::empty(),
        }
        + seq!["WASM size: "@ + decimal(wasm_size as nat) + " bytes"@, Seq::<char>::empty(), "Capabilities:"@]
        + capability_text(caps)
}

/// Renders the description of a module.
pub fn module_info_lines(
    name: &str,
    version: &str,
    description: &Option<String>,
    authors: &Option<Vec<String>>,
    license: &Option<String>,
    wasm_size: usize,
    caps: &Capabilities,
) -> (r: Vec<String>)
    ensures
        lines_view(r@) == module_info_text(name@, version@, *description, *authors, *license, wasm_size, *caps),
{
    let mut out: Vec<String> = Vec::new();
    out.push(labelled("Name: ", name));
    out.push(labelled("Version: ", version));
    let ghost l0 = lines_view(out@);
    match description {
        Some(d) => {
            out.push(labelled("Description: ", d.as_str()));
        },
        None => {},
    }
    let ghost l1 = lines_view(out@);
    match authors {
        Some(a) => {
            let joined = join_comma(a);
            out.push(labelled("Authors: ", joined.as_str()));
        },
        None => {},
    }
    let ghost l2 = lines_view(out@);
    match license {
        Some(l) => {
            out.push(labelled("License: ", l.as_str()));
        },
        None => {},
    }
    let ghost l3 = lines_view(out@);
    let mut size = owned("WASM size: ");
    push_decimal(&mut size, wasm_size as u64);
    push_str(&mut size, " bytes");
    out.push(size);
    out.push(String::new());
    out.push(owned("Capabilities:"));
    let ghost l4 = lines_view(out@);
    let mut caps_lines = capability_lines(caps);
    out.append(&mut caps_lines);
    proof {
        assert(l0 =~= seq!["Name: "@ + name@, "Version: "@ + version@]);
        assert(l1 =~= l0 + match *description {
            Some(d) => seq!["Description: "@ + d@],
            None => Seq::<Seq<char>>::empty(),
        });
        assert(l2 =~= l1 + match *authors {
            Some(a) => seq!["Authors: "@ + comma_joined(names_view(a@))],
            None => Seq::<Seq<char>>::empty(),
        });
        assert(l3 =~= l2 + match *license {
            Some(l) => seq!["License: "@ + l@],
            None => Seq::<Seq<char>>::empty(),
        });
        assert(l4 =~= l3 + seq!["WASM size: "@ + decimal(wasm_size as nat) + " bytes"@, Seq::<char>::empty(), "Capabilities:"@]);
        assert(lines_view(out@) =~= module_info_text(name@, version@, *description, *authors, *license, wasm_size, *caps));
    }
    out
}

/// The description of the running daemon.
pub open spec fn daemon_info_text(i: DaemonInfo) -> Seq<Seq<char>> {
    seq![
        "Version:     "@ + i.version@,
        "API Version: "@ + i.api_version@,
        "Runtime:     "@ + i.runtime@,
        "Platform:    "@ + i.platform@,
        "Started At:  "@ + i.started_at@,
        "Uptime:      "@ + i.uptime@,
        Seq::<char>::empty(),
        "Configuration:"@,
        "  Socket:       "@ + i.config.socket@,
        "  Data Dir:     "@ + i.config.data_dir@,
        "  Max Services: "@ + decimal(i.config.max_services as nat),
    ]
}

/// Renders the description of the running daemon.
pub fn daemon_info_lines(info: &DaemonInfo) -> (r: Vec<String>)
    ensures
        lines_view(r@) == daemon_info_text(*info),
{
    let mut out: Vec<String> = Vec::new();
    out.push(labelled("Version:     ", info.version.as_str()));
    out.push(labelled("API Version: ", info.api_version.as_str()));
    out.push(labelled("Runtime:     ", info.runtime.as_str()));
    out.push(labelled("Platform:    ", info.platform.as_str()));
    out.push(labelled("Started At:  ", info.started_at.as_str()));
    out.push(labelled("Uptime:      ", info.uptime.as_str()));
    out.push(String::new());
    out.push(owned("Configuration:"));
    out.push(labelled("  Socket:       ", info.config.socket.as_str()));
    out.push(labelled("  Data Dir:     ", info.config.data_dir.as_str()));
    let mut m = owned("  Max Services: ");
    push_decimal(&mut m, info.config.max_services as u64);
    out.push(m);
    assert(lines_view(out@) =~= daemon_info_text(*info));
    out
}

/// A module kept in local storage, as the images listing shows it.
#[derive(Debug)]
pub struct ImageInfo {
    /// Image reference (e.g. "hello-http:0.1.0").
    pub reference: String,
    /// Manifest digest.
    pub digest: String,
    /// WASM size in bytes.
    pub wasm_size: u64,
    /// Module name from its configuration.
    pub name: Option<String>,
    /// Module version from its configuration.
    pub version: Option<String>,
}

/// The row of an image: reference, size, version ("-" when unknown), and
/// the first 19 bytes of the digest followed by "...".
pub open spec fn image_row(i: ImageInfo) -> Seq<char> {
    pad(i.reference@, 30) + " "@ + pad(byte_size_text(i.wasm_size as nat), 12) + " "@
        + pad(match i.version { Some(v) => v@, None => "-"@ }, 10) + " "@ + cut_text(i.digest@, 19) + "..."@
}

/// The lines listing images: a hint when there are none, or a header, a
/// rule, one row per image, a blank line and the total.
pub open spec fn image_list_text(images: Seq<ImageInfo>) -> Seq<Seq<char>> {
    if images.len() == 0 {
        seq!["No images found."@, Seq::<char>::empty(), "Build an image with: fabricks build <path>"@]
    } else {
        seq![
            pad("REFERENCE"@, 30) + " "@ + pad("SIZE"@, 12) + " "@ + pad("VERSION"@, 10) + " "@ + pad("DIGEST"@, 64),
            Seq::new(116, |i: int| '-'),
        ]
            + images.map_values(|i: ImageInfo| image_row(i))
            + seq![Seq::<char>::empty(), total_text(images.len() as usize, "image"@)]
    }
}

/// Renders the list of images.
pub fn image_list_lines(images: &Vec<ImageInfo>) -> (r: Vec<String>)
    requires
        forall|i: int| 0 <= i < images@.len() ==> cuttable(#[trigger] images@[i].digest@, 19),
    ensures
        lines_view(r@) == image_list_text(images@),
{
    let mut out: Vec<String> = Vec::new();
    if images.len() == 0 {
        out.push(owned("No images found."));
        out.push(String::new());
        out.push(owned("Build an image with: fabricks build <path>"));
        assert(lines_view(out@) =~= image_list_text(images@));
        return out;
    }
    let mut header = String::new();
    push_padded(&mut header, "REFERENCE", 30);
    push_str(&mut header, " ");
    push_padded(&mut header, "SIZE", 12);
    push_str(&mut header, " ");
    push_padded(&mut header, "VERSION", 10);
    push_str(&mut header, " ");
    push_padded(&mut header, "DIGEST", 64);
    out.push(header);
    let mut rule = String::new();
    let mut k: usize = 0;
    while k < 116
        invariant
            k <= 116,
            rule@ == Seq::new(k as nat, |i: int| '-'),
        decreases 116 - k,
    {
        push_char(&mut rule, '-');
        assert(rule@ =~= Seq::new((k + 1) as nat, |i: int| '-'));
        k = k + 1;
    }
    out.push(rule);
    let ghost head = lines_view(out@);
    let mut i: usize = 0;
    while i < images.len()
        invariant
            i <= images@.len(),
            forall|j: int| 0 <= j < images@.len() ==> cuttable(#[trigger] images@[j].digest@, 19),
            lines_view(out@) == head + images@.take(i as int).map_values(|x: ImageInfo| image_row(x)),
        decreases images.len() - i,
    {
        let img = &images[i];
        let mut row = String::new();
        push_padded(&mut row, img.reference.as_str(), 30);
        push_str(&mut row, " ");
        let size = format_size(img.wasm_size);
        push_padded(&mut row, size.as_str(), 12);
        push_str(&mut row, " ");
        let version = match &img.version {
            Some(v) => v.as_str(),
            None => "-",
        };
        push_padded(&mut row, version, 10);
        push_str(&mut row, " ");
        let digest = cut(img.digest.as_str(), 19);
        push_str(&mut row, digest.as_str());
        push_str(&mut row, "...");
        let ghost before = lines_view(out@);
        assert(row@ =~= image_row(images@[i as int]));
        out.push(row);
        assert(lines_view(out@) =~= before.push(image_row(images@[i as int])));
        assert(images@.take(i + 1).map_values(|x: ImageInfo| image_row(x))
            =~= images@.take(i as int).map_values(|x: ImageInfo| image_row(x)).push(image_row(images@[i as int])));
        i = i + 1;
    }
    assert(images@.take(images@.len() as int) =~= images@);
    let ghost rows = lines_view(out@);
    out.push(String::new());
    out.push(total_line(images.len(), "image"));
    assert(lines_view(out@) =~= rows + seq![Seq::<char>::empty(), total_text(images@.len() as usize, "image"@)]);
    assert(lines_view(out@) =~= image_list_text(images@));
    out
}

} // verus!
