//! The table of live connections and the keepalive rule that clears it.
use crate::text::str_eq;
use vstd::prelude::*;

verus! {

/// How often the keepalive task looks at the connections, in milliseconds.
pub const KEEPALIVE_INTERVAL_MS: u64 = 30000;

/// How long a connection may stay without a pong, in milliseconds.
pub const KEEPALIVE_TIMEOUT_MS: u64 = 60000;

/// The mathematical value of a [`ConnectionInfo`].
pub struct ConnectionView {
    pub addr: Seq<char>,
    pub last_ping: u64,
    pub last_pong: u64,
}

/// A peer that the endpoint talks to. Times are milliseconds of a clock that
/// never goes back, such as the time since the server started.
#[derive(Debug, PartialEq, Eq)]
pub struct ConnectionInfo {
    /// The address of the peer.
    pub addr: String,
    /// When a ping was last sent.
    pub last_ping: u64,
    /// When a pong was last received.
    pub last_pong: u64,
}

impl View for ConnectionInfo {
    type V = ConnectionView;

    open spec fn view(&self) -> ConnectionView {
        ConnectionView { addr: self.addr@, last_ping: self.last_ping, last_pong: self.last_pong }
    }
}

impl Clone for ConnectionInfo {
    fn clone(&self) -> (r: ConnectionInfo)
        ensures
            r@ == self@,
    {
        ConnectionInfo {
            addr: self.addr.clone(),
            last_ping: self.last_ping,
            last_pong: self.last_pong,
        }
    }
}

/// The views of the entries of a connection table.
pub open spec fn connections_view(c: Seq<(String, ConnectionInfo)>) -> Seq<
    (Seq<char>, ConnectionView),
> {
    Seq::new(c.len(), |i: int| (c[i].0@, c[i].1@))
}

/// The last pong of the connection is more than the keepalive timeout ago.
pub open spec fn is_expired(c: ConnectionView, now: u64) -> bool {
    now > c.last_pong && now - c.last_pong > KEEPALIVE_TIMEOUT_MS
}

/// The entries that are not for the connection `id`.
pub open spec fn without(
    table: Seq<(Seq<char>, ConnectionView)>,
    id: Seq<char>,
) -> Seq<(Seq<char>, ConnectionView)>
    decreases table.len(),
{
    if table.len() == 0 {
        Seq::empty()
    } else if table.last().0 == id {
        without(table.drop_last(), id)
    } else {
        without(table.drop_last(), id).push(table.last())
    }
}

/// Whether the table has an entry for the connection `id`.
pub open spec fn has_connection(table: Seq<(Seq<char>, ConnectionView)>, id: Seq<char>) -> bool {
    exists|i: int| 0 <= i < table.len() && (#[trigger] table[i]).0 == id
}

/// The entries whose last pong is within the timeout.
pub open spec fn alive(table: Seq<(Seq<char>, ConnectionView)>, now: u64) -> Seq<
    (Seq<char>, ConnectionView),
>
    decreases table.len(),
{
    if table.len() == 0 {
        Seq::empty()
    } else if is_expired(table.last().1, now) {
        alive(table.drop_last(), now)
    } else {
        alive(table.drop_last(), now).push(table.last())
    }
}

/// The identifiers of the entries whose last pong is too long ago.
pub open spec fn expired_ids(table: Seq<(Seq<char>, ConnectionView)>, now: u64) -> Seq<Seq<char>>
    decreases table.len(),
{
    if table.len() == 0 {
        Seq::empty()
    } else if is_expired(table.last().1, now) {
        expired_ids(table.drop_last(), now).push(table.last().0)
    } else {
        expired_ids(table.drop_last(), now)
    }
}

/// The table after the connection `id` was heard from at `now`.
pub open spec fn with_pong(
    table: Seq<(Seq<char>, ConnectionView)>,
    id: Seq<char>,
    now: u64,
) -> Seq<(Seq<char>, ConnectionView)> {
    Seq::new(
        table.len(),
        |i: int|
            if table[i].0 == id {
                (
                    table[i].0,
                    ConnectionView {
                        addr: table[i].1.addr,
                        last_ping: table[i].1.last_ping,
                        last_pong: now,
                    },
                )
            } else {
                table[i]
            },
    )
}

/// What is left of the table holds no expired connection, and every entry in
/// it was in the table before.
pub proof fn lemma_alive(table: Seq<(Seq<char>, ConnectionView)>, now: u64)
    ensures
        forall|i: int|
            0 <= i < alive(table, now).len() ==> !is_expired(
                (#[trigger] alive(table, now)[i]).1,
                now,
            ) && table.contains(alive(table, now)[i]),
        forall|i: int|
            0 <= i < table.len() && !is_expired((#[trigger] table[i]).1, now) ==> alive(
                table,
                now,
            ).contains(table[i]),
        forall|i: int|
            0 <= i < table.len() && is_expired((#[trigger] table[i]).1, now) ==> expired_ids(
                table,
                now,
            ).contains(table[i].0),
        alive(table, now).len() + expired_ids(table, now).len() == table.len(),
    decreases table.len(),
{
    if table.len() > 0 {
        let rest = table.drop_last();
        lemma_alive(rest, now);
        let a = alive(table, now);
        let e = expired_ids(table, now);
        assert forall|i: int| 0 <= i < a.len() implies !is_expired((#[trigger] a[i]).1, now)
            && table.contains(a[i]) by {
            if i < alive(rest, now).len() {
                let x = alive(rest, now)[i];
                assert(rest.contains(x));
                let k = choose|k: int| 0 <= k < rest.len() && rest[k] == x;
                assert(table[k] == x);
            } else {
                assert(table[table.len() - 1] == a[i]);
            }
        }
        assert forall|i: int|
            0 <= i < table.len() && !is_expired((#[trigger] table[i]).1, now) implies a.contains(
            table[i],
        ) by {
            if i < rest.len() {
                assert(rest[i] == table[i]);
                let k = choose|k: int|
                    0 <= k < alive(rest, now).len() && alive(rest, now)[k] == table[i];
                assert(a[k] == table[i]);
            } else {
                assert(a[a.len() - 1] == table[i]);
            }
        }
        assert forall|i: int|
            0 <= i < table.len() && is_expired((#[trigger] table[i]).1, now) implies e.contains(
            table[i].0,
        ) by {
            if i < rest.len() {
                assert(rest[i] == table[i]);
                let k = choose|k: int|
                    0 <= k < expired_ids(rest, now).len() && expired_ids(rest, now)[k]
                        == table[i].0;
                assert(e[k] == table[i].0);
            } else {
                assert(e[e.len() - 1] == table[i].0);
            }
        }
    }
}

/// Opens an entry for a connection that was heard from at `now`. An entry
/// that the identifier had is replaced.
pub fn register_connection(
    table: &mut Vec<(String, ConnectionInfo)>,
    id: String,
    addr: String,
    now: u64,
)
    ensures
        connections_view(final(table)@) == without(connections_view(old(table)@), id@).push(
            (id@, ConnectionView { addr: addr@, last_ping: now, last_pong: now }),
        ),
{
    let _had = remove_connection(table, id.as_str());
    let ghost before = connections_view(table@);
    table.push((id, ConnectionInfo { addr, last_ping: now, last_pong: now }));
    assert(connections_view(table@) =~= before.push(
        (id@, ConnectionView { addr: addr@, last_ping: now, last_pong: now }),
    ));
}

/// Closes the entry of a connection. Says whether there was one.
pub fn remove_connection(table: &mut Vec<(String, ConnectionInfo)>, id: &str) -> (had: bool)
    ensures
        connections_view(final(table)@) == without(connections_view(old(table)@), id@),
        had == has_connection(connections_view(old(table)@), id@),
{
    let ghost all = connections_view(table@);
    let mut kept: Vec<(String, ConnectionInfo)> = Vec::new();
    let mut had = false;
    let mut i: usize = 0;
    assert(all.take(0) =~= Seq::<(Seq<char>, ConnectionView)>::empty());
    assert(connections_view(kept@) =~= without(all.take(0), id@));
    while i < table.len()
        invariant
            i <= table@.len(),
            all == connections_view(table@),
            connections_view(kept@) == without(all.take(i as int), id@),
            had == has_connection(all.take(i as int), id@),
        decreases table@.len() - i,
    {
        let ghost before = connections_view(kept@);
        assert(all.take(i + 1).drop_last() =~= all.take(i as int));
        assert(all.take(i + 1).last() == all[i as int]);
        if str_eq(table[i].0.as_str(), id) {
            had = true;
            assert(all.take(i + 1)[i as int].0 == id@);
        } else {
            kept.push((table[i].0.clone(), table[i].1.clone()));
            assert(connections_view(kept@) =~= before.push(all[i as int]));
            assert(has_connection(all.take(i + 1), id@) == has_connection(all.take(i as int), id@))
                by {
                if has_connection(all.take(i + 1), id@) {
                    let k = choose|k: int|
                        0 <= k < all.take(i + 1).len() && (#[trigger] all.take(i + 1)[k]).0 == id@;
                    assert(all.take(i as int)[k].0 == id@);
                }
                if has_connection(all.take(i as int), id@) {
                    let k = choose|k: int|
                        0 <= k < all.take(i as int).len() && (#[trigger] all.take(i as int)[k]).0
                            == id@;
                    assert(all.take(i + 1)[k].0 == id@);
                }
            }
        }
        i = i + 1;
    }
    assert(all.take(i as int) =~= all);
    *table = kept;
    had
}

/// Notes that the connection `id` answered a ping at `now`. Says whether the
/// table has the connection.
pub fn record_pong(table: &mut Vec<(String, ConnectionInfo)>, id: &str, now: u64) -> (known: bool)
    ensures
        connections_view(final(table)@) == with_pong(connections_view(old(table)@), id@, now),
        known == has_connection(connections_view(old(table)@), id@),
{
    let ghost all = connections_view(table@);
    let mut next: Vec<(String, ConnectionInfo)> = Vec::new();
    let mut known = false;
    let mut i: usize = 0;
    while i < table.len()
        invariant
            i <= table@.len(),
            all == connections_view(table@),
            next@.len() == i,
            forall|k: int| 0 <= k < i ==> (next@[k].0@, next@[k].1@) == with_pong(all, id@, now)[k],
            known == (exists|k: int| 0 <= k < i && (#[trigger] all[k]).0 == id@),
        decreases table@.len() - i,
    {
        let mut info = table[i].1.clone();
        if str_eq(table[i].0.as_str(), id) {
            info.last_pong = now;
            known = true;
            assert(all[i as int].0 == id@);
        }
        next.push((table[i].0.clone(), info));
        i = i + 1;
    }
    assert(connections_view(next@) =~= with_pong(all, id@, now));
    *table = next;
    known
}

/// Drops the connections whose last pong is more than the keepalive timeout
/// before `now`, and gives their identifiers. The other connections stay as
/// they are, in their order.
pub fn remove_expired(table: &mut Vec<(String, ConnectionInfo)>, now: u64) -> (dropped: Vec<String>)
    ensures
        connections_view(final(table)@) == alive(connections_view(old(table)@), now),
        crate::text::strings_view(dropped@) == expired_ids(connections_view(old(table)@), now),
{
    let ghost all = connections_view(table@);
    let mut kept: Vec<(String, ConnectionInfo)> = Vec::new();
    let mut dropped: Vec<String> = Vec::new();
    let mut i: usize = 0;
    assert(all.take(0) =~= Seq::<(Seq<char>, ConnectionView)>::empty());
    assert(connections_view(kept@) =~= alive(all.take(0), now));
    assert(crate::text::strings_view(dropped@) =~= expired_ids(all.take(0), now));
    while i < table.len()
        invariant
            i <= table@.len(),
            all == connections_view(table@),
            connections_view(kept@) == alive(all.take(i as int), now),
            crate::text::strings_view(dropped@) == expired_ids(all.take(i as int), now),
        decreases table@.len() - i,
    {
        let ghost kept_before = connections_view(kept@);
        let ghost dropped_before = crate::text::strings_view(dropped@);
        assert(all.take(i + 1).drop_last() =~= all.take(i as int));
        assert(all.take(i + 1).last() == all[i as int]);
        let last_pong = table[i].1.last_pong;
        if now > last_pong && now - last_pong > KEEPALIVE_TIMEOUT_MS {
            dropped.push(table[i].0.clone());
            assert(crate::text::strings_view(dropped@) =~= dropped_before.push(all[i as int].0));
        } else {
            kept.push((table[i].0.clone(), table[i].1.clone()));
            assert(connections_view(kept@) =~= kept_before.push(all[i as int]));
        }
        i = i + 1;
    }
    assert(all.take(i as int) =~= all);
    *table = kept;
    dropped
}

} // verus!
