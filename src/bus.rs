//! An address bus: a routing table from address ranges to devices.
use vstd::prelude::*;

use crate::{Addressable, Byte, Word};

verus! {

/// A route: a name, the first and the last address it serves, and the
/// device that serves them.
pub type Route<D> = (String, Word, Word, D);

/// Whether `route`'s inclusive range holds `a`.
pub open spec fn covers<D>(route: Route<D>, a: Word) -> bool {
    route.1 <= a <= route.2
}

/// The index of the first route, from `i` on, whose range holds `a`; the
/// number of routes when there is none.
pub open spec fn first_route<D>(routes: Seq<Route<D>>, a: Word, i: int) -> int
    decreases routes.len() - i,
{
    if i < 0 || i >= routes.len() {
        routes.len() as int
    } else if covers(routes[i], a) {
        i
    } else {
        first_route(routes, a, i + 1)
    }
}

/// Whether `a` is routed to a device that serves it.
pub open spec fn routed<D: Addressable>(routes: Seq<Route<D>>, a: Word) -> bool {
    let k = first_route(routes, a, 0);
    k < routes.len() && routes[k].3.contents().dom().contains(a)
}

/// The size of a bus image: one past the largest last address of a route,
/// or 0 with no route.
pub open spec fn span<D>(routes: Seq<Route<D>>) -> int
    decreases routes.len(),
{
    if routes.len() == 0 {
        0
    } else {
        let rest = span(routes.drop_last());
        let own = routes.last().2 as int + 1;
        if rest < own { own } else { rest }
    }
}

/// A routing table. Reads and writes go to the first route whose range holds
/// the address; routes are expected not to overlap.
pub struct Bus<D> {
    devices: Vec<Route<D>>,
}

impl<D: Addressable> Bus<D> {
    /// The routes, in the order they were connected.
    pub closed spec fn routes(&self) -> Seq<Route<D>> {
        self.devices@
    }

    /// A bus with no route.
    pub fn new() -> (r: Bus<D>)
        ensures
            r.routes().len() == 0,
    {
        Bus { devices: Vec::new() }
    }

    /// Appends a route that sends `start..=end` to `device`. Earlier routes
    /// stay, and win where ranges overlap.
    pub fn connect(&mut self, name: &str, start: Word, end: Word, device: D)
        ensures
            final(self).routes().len() == old(self).routes().len() + 1,
            final(self).routes().drop_last() == old(self).routes(),
            final(self).routes().last().0@ == name@,
            final(self).routes().last().1 == start,
            final(self).routes().last().2 == end,
            final(self).routes().last().3 == device,
    {
        self.devices.push((name.to_owned(), start, end, device));
        assert(self.routes().drop_last() =~= old(self).routes());
    }

    /// The index of the route that serves `addr`, if any.
    fn route_of(&self, addr: Word) -> (r: usize)
        ensures
            r == first_route(self.routes(), addr, 0),
    {
        let mut i: usize = 0;
        while i < self.devices.len()
            invariant
                i <= self.devices@.len(),
                first_route(self.routes(), addr, 0) == first_route(self.routes(), addr, i as int),
            decreases self.devices@.len() - i,
        {
            if self.devices[i].1 <= addr && addr <= self.devices[i].2 {
                return i;
            }
            i = i + 1;
        }
        i
    }

    /// One past the largest last address of a route.
    fn span_exec(&self) -> (r: usize)
        ensures
            r == span(self.routes()),
            r <= 0x10000,
    {
        let mut i: usize = 0;
        let mut m: usize = 0;
        while i < self.devices.len()
            invariant
                i <= self.devices@.len(),
                m == span(self.routes().take(i as int)),
                m <= 0x10000,
            decreases self.devices@.len() - i,
        {
            assert(self.routes().take(i as int + 1).drop_last() =~= self.routes().take(i as int));
            let own = self.devices[i].2 as usize + 1;
            if m < own {
                m = own;
            }
            i = i + 1;
        }
        assert(self.routes().take(i as int) =~= self.routes());
        m
    }
}

impl<D: Addressable> Default for Bus<D> {
    fn default() -> (r: Bus<D>)
        ensures
            r.routes().len() == 0,
    {
        Bus::new()
    }
}

/// Routing depends on the routes' ranges alone.
proof fn lemma_first_route_ranges<D>(r1: Seq<Route<D>>, r2: Seq<Route<D>>, a: Word, i: int)
    requires
        r1.len() == r2.len(),
        forall|j: int| 0 <= j < r1.len() ==> r1[j].1 == r2[j].1 && r1[j].2 == r2[j].2,
    ensures
        first_route(r1, a, i) == first_route(r2, a, i),
    decreases r1.len() - i,
{
    if 0 <= i < r1.len() {
        lemma_first_route_ranges(r1, r2, a, i + 1);
    }
}

/// The route found from `i` on holds the address, and no route between `i`
/// and it does.
proof fn lemma_first_route_bounds<D>(rs: Seq<Route<D>>, a: Word, i: int)
    requires
        0 <= i,
    ensures
        i <= first_route(rs, a, i) <= rs.len() || (i > rs.len() && first_route(rs, a, i) == rs.len()),
        first_route(rs, a, i) < rs.len() ==> covers(rs[first_route(rs, a, i)], a),
    decreases rs.len() - i,
{
    if i < rs.len() && !covers(rs[i], a) {
        lemma_first_route_bounds(rs, a, i + 1);
    }
}

impl<D: Addressable> Addressable for Bus<D> {
    open spec fn contents(&self) -> Map<Word, Byte> {
        Map::new(
            |a: Word| routed(self.routes(), a),
            |a: Word| self.routes()[first_route(self.routes(), a, 0)].3.contents()[a],
        )
    }

    open spec fn image(&self) -> Seq<Byte> {
        Seq::new(
            span(self.routes()) as nat,
            |i: int|
                if self.contents().dom().contains(i as Word) {
                    self.contents()[i as Word]
                } else {
                    0u8
                },
        )
    }

    fn inside_bounds(&self, addr: Word) -> (r: bool) {
        let k = self.route_of(addr);
        proof {
            lemma_first_route_bounds(self.routes(), addr, 0);
        }
        if k < self.devices.len() {
            self.devices[k].3.inside_bounds(addr)
        } else {
            false
        }
    }

    fn read(&self, addr: Word) -> (r: Byte) {
        let k = self.route_of(addr);
        self.devices[k].3.read(addr)
    }

    fn write(&mut self, addr: Word, value: Byte) {
        let k = self.route_of(addr);
        let ghost before = self.routes();
        self.devices[k].3.write(addr, value);
        proof {
            let after = self.routes();
            lemma_first_route_bounds(before, addr, 0);
            assert(after.len() == before.len());
            assert forall|j: int| 0 <= j < after.len() && j != k implies after[j] == before[j] by {}
            assert(after[k as int].3.contents() == before[k as int].3.contents().insert(addr, value));
            assert forall|a: Word|
                first_route(after, a, 0) == first_route(before, a, 0) by {
                lemma_first_route_ranges(after, before, a, 0);
            }
            let target = old(self).contents().insert(addr, value);
            assert forall|a: Word| #[trigger] self.contents().dom().contains(a) == target.dom().contains(a)
                && (self.contents().dom().contains(a) ==> self.contents()[a] == target[a]) by {
                lemma_first_route_bounds(before, a, 0);
            }
            assert(self.contents() =~= target);
        }
    }

    fn snapshot(&self) -> (r: Vec<Byte>) {
        let n = self.span_exec();
        let mut out: Vec<Byte> = Vec::new();
        let mut a: usize = 0;
        while a < n
            invariant
                n == span(self.routes()),
                n <= 0x10000,
                a <= n,
                out@.len() == a,
                forall|j: int| 0 <= j < a ==> out@[j] == self.image()[j],
            decreases n - a,
        {
            if self.inside_bounds(a as Word) {
                out.push(self.read(a as Word));
            } else {
                out.push(0);
            }
            a = a + 1;
        }
        assert(out@ =~= self.image());
        out
    }
}

} // verus!
