//! BGP peers from the BGP4-MIB peer table: the names of the peer states,
//! and the grouping of the walked table into one record per peer.

use vstd::prelude::*;
use crate::snmp::types::SnmpValue;
use crate::text::{
    chars_of, eq_str, occurs_at, occurs_at_exec, skip_char, starts_with, starts_with_spec, string_of,
    to_owned_string, trim_start_char,
};

verus! {

/// The name of a `bgpPeerState` value.
pub open spec fn bgp_state_spec(code: i64) -> Seq<char> {
    if code == 1 {
        "idle"@
    } else if code == 2 {
        "connect"@
    } else if code == 3 {
        "active"@
    } else if code == 4 {
        "opensent"@
    } else if code == 5 {
        "openconfirm"@
    } else if code == 6 {
        "established"@
    } else {
        "unknown"@
    }
}

/// The name of a `bgpPeerState` value.
pub fn bgp_state_name(code: i64) -> (r: &'static str)
    ensures
        r@ == bgp_state_spec(code),
{
    match code {
        1 => "idle",
        2 => "connect",
        3 => "active",
        4 => "opensent",
        5 => "openconfirm",
        6 => "established",
        _ => "unknown",
    }
}

/// The OID prefixes of the peer-table columns the collector reads.
pub struct BgpColumns {
    pub remote_addr: String,
    pub remote_as: String,
    pub state: String,
    pub local_addr: String,
    pub last_error: String,
}

/// A column of the peer table.
#[derive(Debug, Clone, Copy, PartialEq, Eq, Structural)]
pub enum BgpField {
    RemoteAddr,
    RemoteAs,
    State,
    LocalAddr,
    LastError,
}

/// The remote AS of a peer: a number when the device gave one, else its text.
#[derive(Debug, Clone, PartialEq, Eq)]
pub enum RemoteAs {
    Number(i64),
    Text(String),
}

/// The remote AS with its text as a character sequence.
pub ghost enum RemoteAsView {
    Number(i64),
    Text(Seq<char>),
}

impl View for RemoteAs {
    type V = RemoteAsView;

    open spec fn view(&self) -> RemoteAsView {
        match self {
            RemoteAs::Number(n) => RemoteAsView::Number(*n),
            RemoteAs::Text(t) => RemoteAsView::Text(t@),
        }
    }
}

/// A peer of the table: its row index and the columns found for it.
#[derive(Debug, Clone)]
pub struct BgpPeer {
    pub index: String,
    pub remote_addr: Option<String>,
    pub remote_as: Option<RemoteAs>,
    pub state: Option<String>,
    pub local_addr: Option<String>,
    pub last_error: Option<String>,
}

/// A peer with its texts as character sequences.
pub ghost struct PeerView {
    pub index: Seq<char>,
    pub remote_addr: Option<Seq<char>>,
    pub remote_as: Option<RemoteAsView>,
    pub state: Option<Seq<char>>,
    pub local_addr: Option<Seq<char>>,
    pub last_error: Option<Seq<char>>,
}

/// The view of an optional text.
pub open spec fn opt_view(o: Option<String>) -> Option<Seq<char>> {
    match o {
        Some(s) => Some(s@),
        None => None,
    }
}

impl View for BgpPeer {
    type V = PeerView;

    open spec fn view(&self) -> PeerView {
        PeerView {
            index: self.index@,
            remote_addr: opt_view(self.remote_addr),
            remote_as: match self.remote_as {
                Some(a) => Some(a@),
                None => None,
            },
            state: opt_view(self.state),
            local_addr: opt_view(self.local_addr),
            last_error: opt_view(self.last_error),
        }
    }
}

/// `s` without the copies of `p` it starts with (`str::trim_start_matches`
/// with a string pattern; an empty pattern removes nothing).
pub open spec fn trim_prefix_all(s: Seq<char>, p: Seq<char>) -> Seq<char>
    decreases s.len(),
{
    if p.len() > 0 && starts_with_spec(s, p) {
        trim_prefix_all(s.skip(p.len() as int), p)
    } else {
        s
    }
}

/// The row index of `oid` under the column prefix `p`: the prefix and the
/// dots after it removed.
pub open spec fn index_under(oid: Seq<char>, p: Seq<char>) -> Seq<char> {
    trim_start_char(trim_prefix_all(oid, p), '.')
}

/// The column and row index of a walked OID, trying the columns in order;
/// `None` for an OID under none of them.
pub open spec fn row_key_spec(c: BgpColumns, oid: Seq<char>) -> Option<(BgpField, Seq<char>)> {
    if starts_with_spec(oid, c.remote_addr@) {
        Some((BgpField::RemoteAddr, index_under(oid, c.remote_addr@)))
    } else if starts_with_spec(oid, c.remote_as@) {
        Some((BgpField::RemoteAs, index_under(oid, c.remote_as@)))
    } else if starts_with_spec(oid, c.state@) {
        Some((BgpField::State, index_under(oid, c.state@)))
    } else if starts_with_spec(oid, c.local_addr@) {
        Some((BgpField::LocalAddr, index_under(oid, c.local_addr@)))
    } else if starts_with_spec(oid, c.last_error@) {
        Some((BgpField::LastError, index_under(oid, c.last_error@)))
    } else {
        None
    }
}

/// The peers' row indexes, each once, in the order they first appear.
pub open spec fn peer_order(c: BgpColumns, rows: Seq<(String, SnmpValue)>) -> Seq<Seq<char>>
    decreases rows.len(),
{
    if rows.len() == 0 {
        Seq::empty()
    } else {
        let rest = peer_order(c, rows.drop_last());
        match row_key_spec(c, rows.last().0@) {
            Some((_, i)) => if rest.contains(i) {
                rest
            } else {
                rest.push(i)
            },
            None => rest,
        }
    }
}

/// The value of column `f` for peer `idx`: that of the last row for it.
pub open spec fn field_value(c: BgpColumns, rows: Seq<(String, SnmpValue)>, f: BgpField, idx: Seq<char>) -> Option<SnmpValue>
    decreases rows.len(),
{
    if rows.len() == 0 {
        None
    } else if row_key_spec(c, rows.last().0@) == Some((f, idx)) {
        Some(rows.last().1)
    } else {
        field_value(c, rows.drop_last(), f, idx)
    }
}

/// The text of column `f` for peer `idx`, if any.
pub open spec fn field_text(c: BgpColumns, rows: Seq<(String, SnmpValue)>, f: BgpField, idx: Seq<char>) -> Option<Seq<char>> {
    match field_value(c, rows, f, idx) {
        Some(v) => Some(v.as_string_spec()),
        None => None,
    }
}

/// The remote AS as reported: a number when the value is one.
pub open spec fn remote_as_spec(v: SnmpValue) -> RemoteAsView {
    match v.as_u64_spec() {
        Some(n) => RemoteAsView::Number(n as i64),
        None => RemoteAsView::Text(v.as_string_spec()),
    }
}

/// The state as reported: the state's name when the value is a number.
pub open spec fn state_spec(v: SnmpValue) -> Seq<char> {
    match v.as_i64_spec() {
        Some(code) => bgp_state_spec(code),
        None => v.as_string_spec(),
    }
}

/// The record of peer `idx`.
pub open spec fn peer_spec(c: BgpColumns, rows: Seq<(String, SnmpValue)>, idx: Seq<char>) -> PeerView {
    PeerView {
        index: idx,
        remote_addr: field_text(c, rows, BgpField::RemoteAddr, idx),
        remote_as: match field_value(c, rows, BgpField::RemoteAs, idx) {
            Some(v) => Some(remote_as_spec(v)),
            None => None,
        },
        state: match field_value(c, rows, BgpField::State, idx) {
            Some(v) => Some(state_spec(v)),
            None => None,
        },
        local_addr: field_text(c, rows, BgpField::LocalAddr, idx),
        last_error: field_text(c, rows, BgpField::LastError, idx),
    }
}

/// Where `s` continues once the copies of `p` it starts with are removed.
fn strip_repeated(s: &[char], p: &[char]) -> (j: usize)
    ensures
        j <= s@.len(),
        trim_prefix_all(s@, p@) == s@.skip(j as int),
{
    assert(s@.skip(0) =~= s@);
    if p.len() == 0 {
        return 0;
    }
    let n = s.len();
    let mut j: usize = 0;
    loop
        invariant
            n == s@.len(),
            j <= s@.len(),
            p@.len() > 0,
            trim_prefix_all(s@, p@) == trim_prefix_all(s@.skip(j as int), p@),
        decreases s@.len() - j,
    {
        if !occurs_at_exec(s, p, j) {
            if p.len() <= s.len() - j {
                assert(s@.skip(j as int).subrange(0, p@.len() as int) =~= s@.subrange(j as int, j + p@.len()));
            }
            return j;
        }
        assert(s@.skip(j as int).subrange(0, p@.len() as int) =~= s@.subrange(j as int, j + p@.len()));
        assert(starts_with_spec(s@.skip(j as int), p@));
        assert(s@.skip(j as int).skip(p@.len() as int) =~= s@.skip(j + p@.len()));
        j += p.len();
    }
}

/// The row index of `oid` under the prefix `p`.
fn index_under_exec(oid: &str, p: &str) -> (r: String)
    ensures
        r@ == index_under(oid@, p@),
{
    let cs = chars_of(oid);
    let pc = chars_of(p);
    let j = strip_repeated(cs.as_slice(), pc.as_slice());
    let k = skip_char(cs.as_slice(), j, '.');
    let r = string_of(vstd::slice::slice_subrange(cs.as_slice(), k, cs.len()));
    assert(r@ =~= cs@.skip(k as int));
    r
}

/// The column and row index of a walked OID.
fn row_key(c: &BgpColumns, oid: &str) -> (r: Option<(BgpField, String)>)
    ensures
        match r {
            Some((f, i)) => row_key_spec(*c, oid@) == Some((f, i@)),
            None => row_key_spec(*c, oid@) is None,
        },
{
    if starts_with(oid, c.remote_addr.as_str()) {
        Some((BgpField::RemoteAddr, index_under_exec(oid, c.remote_addr.as_str())))
    } else if starts_with(oid, c.remote_as.as_str()) {
        Some((BgpField::RemoteAs, index_under_exec(oid, c.remote_as.as_str())))
    } else if starts_with(oid, c.state.as_str()) {
        Some((BgpField::State, index_under_exec(oid, c.state.as_str())))
    } else if starts_with(oid, c.local_addr.as_str()) {
        Some((BgpField::LocalAddr, index_under_exec(oid, c.local_addr.as_str())))
    } else if starts_with(oid, c.last_error.as_str()) {
        Some((BgpField::LastError, index_under_exec(oid, c.last_error.as_str())))
    } else {
        None
    }
}

/// The views of a list of texts.
pub open spec fn texts_view(v: Seq<String>) -> Seq<Seq<char>> {
    v.map_values(|s: String| s@)
}

fn contains_text(v: &Vec<String>, x: &str) -> (r: bool)
    ensures
        r == texts_view(v@).contains(x@),
{
    let mut i: usize = 0;
    while i < v.len()
        invariant
            i <= v@.len(),
            forall|j: int| 0 <= j < i ==> v@[j]@ != x@,
        decreases v.len() - i,
    {
        if eq_str(v[i].as_str(), x) {
            assert(texts_view(v@)[i as int] == x@);
            return true;
        }
        i += 1;
    }
    assert forall|j: int| 0 <= j < texts_view(v@).len() implies texts_view(v@)[j] != x@ by {
        assert(texts_view(v@)[j] == v@[j]@);
    }
    false
}

/// The value of column `f` for peer `idx`.
fn field_row<'a>(c: &BgpColumns, rows: &'a Vec<(String, SnmpValue)>, f: BgpField, idx: &str) -> (r: Option<&'a SnmpValue>)
    ensures
        match r {
            Some(v) => field_value(*c, rows@, f, idx@) == Some(*v),
            None => field_value(*c, rows@, f, idx@) is None,
        },
{
    let mut i: usize = rows.len();
    assert(rows@.take(i as int) =~= rows@);
    while i > 0
        invariant
            i <= rows@.len(),
            field_value(*c, rows@, f, idx@) == field_value(*c, rows@.take(i as int), f, idx@),
        decreases i,
    {
        assert(rows@.take(i as int).last() == rows@[i - 1]);
        match row_key(c, rows[i - 1].0.as_str()) {
            Some((g, k)) => {
                if g == f && eq_str(k.as_str(), idx) {
                    return Some(&rows[i - 1].1);
                }
            },
            None => {},
        }
        assert(rows@.take(i as int).drop_last() =~= rows@.take(i - 1));
        i -= 1;
    }
    None
}

fn field_text_exec(c: &BgpColumns, rows: &Vec<(String, SnmpValue)>, f: BgpField, idx: &str) -> (r: Option<String>)
    ensures
        opt_view(r) == field_text(*c, rows@, f, idx@),
{
    match field_row(c, rows, f, idx) {
        Some(v) => Some(v.as_string()),
        None => None,
    }
}

/// The peers of a walked peer table: one record per row index, in the
/// order the indexes first appear, each column taken from the last row that
/// gives it. Rows under none of the columns are ignored.
pub fn group_bgp_peers(c: &BgpColumns, rows: &Vec<(String, SnmpValue)>) -> (r: Vec<BgpPeer>)
    ensures
        r@.len() == peer_order(*c, rows@).len(),
        forall|i: int| 0 <= i < r@.len() ==> (#[trigger] r@[i])@ == peer_spec(*c, rows@, peer_order(*c, rows@)[i]),
{
    let mut order: Vec<String> = Vec::new();
    let mut i: usize = 0;
    while i < rows.len()
        invariant
            i <= rows@.len(),
            texts_view(order@) == peer_order(*c, rows@.take(i as int)),
        decreases rows.len() - i,
    {
        assert(rows@.take(i + 1).drop_last() =~= rows@.take(i as int));
        assert(rows@.take(i + 1).last() == rows@[i as int]);
        match row_key(c, rows[i].0.as_str()) {
            Some((_, k)) => {
                if !contains_text(&order, k.as_str()) {
                    order.push(k);
                    assert(texts_view(order@) =~= peer_order(*c, rows@.take(i as int)).push(
                        texts_view(order@).last(),
                    ));
                }
            },
            None => {},
        }
        i += 1;
    }
    assert(rows@.take(rows.len() as int) =~= rows@);
    let mut peers: Vec<BgpPeer> = Vec::new();
    let mut j: usize = 0;
    while j < order.len()
        invariant
            j <= order@.len(),
            texts_view(order@) == peer_order(*c, rows@),
            peers@.len() == j,
            forall|k: int| 0 <= k < j ==> (#[trigger] peers@[k])@ == peer_spec(*c, rows@, peer_order(*c, rows@)[k]),
        decreases order.len() - j,
    {
        let idx = order[j].as_str();
        assert(texts_view(order@)[j as int] == order@[j as int]@);
        let remote_as = match field_row(c, rows, BgpField::RemoteAs, idx) {
            Some(v) => match v.as_u64() {
                Some(n) => Some(RemoteAs::Number(n as i64)),
                None => Some(RemoteAs::Text(v.as_string())),
            },
            None => None,
        };
        let state = match field_row(c, rows, BgpField::State, idx) {
            Some(v) => match v.as_i64() {
                Some(code) => Some(to_owned_string(bgp_state_name(code))),
                None => Some(v.as_string()),
            },
            None => None,
        };
        let peer = BgpPeer {
            index: order[j].clone(),
            remote_addr: field_text_exec(c, rows, BgpField::RemoteAddr, idx),
            remote_as,
            state,
            local_addr: field_text_exec(c, rows, BgpField::LocalAddr, idx),
            last_error: field_text_exec(c, rows, BgpField::LastError, idx),
        };
        peers.push(peer);
        j += 1;
    }
    peers
}

} // verus!
