use vstd::pervasive::VecAdditionalExecFns;
use vstd::prelude::*;

use crate::descriptor::Port;
use crate::descriptor::PortV;
use crate::ports::PortKind;

verus! {

/// Typed view over host-owned port memory. Addresses and lengths are
/// plain integers here; the unmanaged layer outside this crate turns an
/// audio view into a buffer of `len` samples at `base`, and a control
/// view into a single value at `base`.
#[derive(Clone, Copy, PartialEq, Eq, Structural, Debug)]
pub enum PortData {
    /// Read-only audio buffer view: base address and current length in samples.
    AudioInput { base: usize, len: usize },
    /// Mutable audio buffer view: base address and current length in samples.
    AudioOutput { base: usize, len: usize },
    /// Read-only single control value at the base address.
    ControlInput { base: usize },
    /// Mutable single control value at the base address.
    ControlOutput { base: usize },
}

/// One connected port: the declared port's metadata beside the typed
/// view over the memory the host bound to it.
pub struct PortConnection {
    /// The declared port this connection belongs to.
    pub port: Port,
    /// The typed view over the host-owned memory.
    pub data: PortData,
}

/// Mathematical value of a port connection.
#[verifier::ext_equal]
pub ghost struct PortConnectionV {
    pub port: PortV,
    pub data: PortData,
}

impl View for PortConnection {
    type V = PortConnectionV;

    open spec fn view(&self) -> PortConnectionV {
        PortConnectionV { port: self.port@, data: self.data }
    }
}

impl Clone for PortConnection {
    fn clone(&self) -> (r: Self)
        ensures
            r@ == self@,
    {
        PortConnection { port: self.port.clone(), data: self.data }
    }
}

/// Failure of a connection request.
#[derive(Clone, Copy, PartialEq, Eq, Structural, Debug)]
pub enum ConnectError {
    /// The declared kind of the addressed port is not one of the four
    /// valid combinations: internal schema corruption, fatal to the caller.
    InvalidPortKind,
}

/// The typed view built at connect time for a declared port kind: audio
/// views start with length zero (the length is unknown until the first
/// processing call), control views carry just the address.
pub open spec fn data_of(kind: PortKind, addr: usize) -> PortData
    recommends
        kind != PortKind::Invalid,
{
    match kind {
        PortKind::AudioInput => PortData::AudioInput { base: addr, len: 0 },
        PortKind::AudioOutput => PortData::AudioOutput { base: addr, len: 0 },
        PortKind::ControlInput => PortData::ControlInput { base: addr },
        PortKind::ControlOutput => PortData::ControlOutput { base: addr },
        PortKind::Invalid => arbitrary(),
    }
}

/// The connection built when the host binds `addr` to a declared port.
pub open spec fn conn_of(p: PortV, addr: usize) -> PortConnectionV
    recommends
        p.kind != PortKind::Invalid,
{
    PortConnectionV { port: p, data: data_of(p.kind, addr) }
}

/// Whether a typed view belongs to a declared kind.
pub open spec fn data_matches(d: PortData, k: PortKind) -> bool {
    match d {
        PortData::AudioInput { .. } => k == PortKind::AudioInput,
        PortData::AudioOutput { .. } => k == PortKind::AudioOutput,
        PortData::ControlInput { .. } => k == PortKind::ControlInput,
        PortData::ControlOutput { .. } => k == PortKind::ControlOutput,
    }
}

/// Whether the connection map holds one entry per declared port.
pub open spec fn complete(m: Seq<Option<PortConnectionV>>) -> bool {
    forall|i: int| 0 <= i < m.len() ==> m[i] is Some
}

/// The ordered port list a complete connection map yields: position `i`
/// holds the connection of port number `i`.
pub open spec fn derived(m: Seq<Option<PortConnectionV>>) -> Seq<PortConnectionV>
    recommends
        complete(m),
{
    Seq::new(m.len(), |i: int| m[i]->Some_0)
}

/// One connection after a processing call with `n` samples: an audio
/// view is re-derived over its stored base with length `n`, a control
/// view passes through unchanged.
pub open spec fn rerun_data(d: PortData, n: usize) -> PortData {
    match d {
        PortData::AudioInput { base, len: _ } => PortData::AudioInput { base, len: n },
        PortData::AudioOutput { base, len: _ } => PortData::AudioOutput { base, len: n },
        PortData::ControlInput { base } => PortData::ControlInput { base },
        PortData::ControlOutput { base } => PortData::ControlOutput { base },
    }
}

/// A whole connection after a processing call with `n` samples.
pub open spec fn rerun(c: PortConnectionV, n: usize) -> PortConnectionV {
    PortConnectionV { port: c.port, data: rerun_data(c.data, n) }
}

/// The whole connection map after a processing call with `n` samples.
pub open spec fn run_map(m: Seq<Option<PortConnectionV>>, n: usize) -> Seq<
    Option<PortConnectionV>,
> {
    Seq::new(
        m.len(),
        |i: int|
            match m[i] {
                Some(c) => Some(rerun(c, n)),
                None => None,
            },
    )
}

/// The mathematical value of a connection map held as a vector of slots.
pub open spec fn map_view(m: Seq<Option<PortConnection>>) -> Seq<Option<PortConnectionV>> {
    Seq::new(
        m.len(),
        |i: int|
            match m[i] {
                Some(c) => Some(c@),
                None => None,
            },
    )
}

/// The mathematical value of an ordered connection list.
pub open spec fn conns_view(v: Seq<PortConnection>) -> Seq<PortConnectionV> {
    Seq::new(v.len(), |i: int| v[i]@)
}

/// The mathematical value of a declared port list.
pub open spec fn decls_view(v: Seq<Port>) -> Seq<PortV> {
    Seq::new(v.len(), |i: int| v[i]@)
}

/// Per-instantiation state of one plugin instance: the declared ports,
/// one connection slot per port number, and the ordered port list that
/// is rebuilt whenever the map holds one entry per declared port.
pub struct Handle {
    /// The declared ports, ordered by port number.
    pub declared: Vec<Port>,
    /// One slot per declared port number; `None` until the host connects it.
    pub port_map: Vec<Option<PortConnection>>,
    /// Ordered port list, empty until the map is complete, then indexed
    /// by port number.
    pub ports: Vec<PortConnection>,
}

/// Mathematical value of a handle.
#[verifier::ext_equal]
pub ghost struct HandleV {
    pub declared: Seq<PortV>,
    pub port_map: Seq<Option<PortConnectionV>>,
    pub ports: Seq<PortConnectionV>,
}

impl View for Handle {
    type V = HandleV;

    open spec fn view(&self) -> HandleV {
        HandleV {
            declared: decls_view(self.declared@),
            port_map: map_view(self.port_map@),
            ports: conns_view(self.ports@),
        }
    }
}

impl HandleV {
    /// Whether slot `i` is either empty or a connection of the port
    /// declared at `i`, with a view of the declared kind.
    pub open spec fn slot_ok(self, i: int) -> bool {
        match self.port_map[i] {
            Some(c) => c.port == self.declared[i] && self.declared[i].kind != PortKind::Invalid
                && data_matches(c.data, self.declared[i].kind),
            None => true,
        }
    }

    /// Well-formedness: one slot per declared port; every filled slot
    /// carries its port's metadata and a view of the declared kind; and
    /// the ordered list is empty before the map is complete, afterwards
    /// exactly the map read out in port-number order.
    pub open spec fn wf(self) -> bool {
        &&& self.port_map.len() == self.declared.len()
        &&& (forall|i: int| 0 <= i < self.port_map.len() ==> #[trigger] self.slot_ok(i))
        &&& if complete(self.port_map) {
            self.ports == derived(self.port_map)
        } else {
            self.ports.len() == 0
        }
    }
}

/// Whether every slot of the connection map is filled.
fn map_complete(m: &Vec<Option<PortConnection>>) -> (b: bool)
    ensures
        b == complete(map_view(m@)),
{
    let n = m.len();
    let mut i: usize = 0;
    while i < n
        invariant
            n == m@.len(),
            i <= n,
            forall|j: int| 0 <= j < i ==> map_view(m@)[j] is Some,
        decreases n - i,
    {
        if m[i].is_none() {
            proof {
                assert(map_view(m@)[i as int] is None);
            }
            return false;
        }
        i += 1;
    }
    true
}

/// Reads a complete connection map out into the ordered port list.
fn derive_ports(m: &Vec<Option<PortConnection>>) -> (r: Vec<PortConnection>)
    requires
        complete(map_view(m@)),
    ensures
        conns_view(r@) == derived(map_view(m@)),
{
    let n = m.len();
    let mut r: Vec<PortConnection> = Vec::new();
    let mut i: usize = 0;
    while i < n
        invariant
            n == m@.len(),
            complete(map_view(m@)),
            i <= n,
            r@.len() == i,
            forall|j: int| 0 <= j < i ==> r@[j]@ == map_view(m@)[j]->Some_0,
        decreases n - i,
    {
        match &m[i] {
            Some(c) => {
                r.push(c.clone());
            },
            None => {
                proof {
                    assert(map_view(m@)[i as int] is Some);
                    assert(false);
                }
            },
        }
        i += 1;
    }
    proof {
        assert(conns_view(r@) =~= derived(map_view(m@)));
    }
    r
}

/// The typed view built at connect time, as executable code.
fn build_data(kind: PortKind, addr: usize) -> (d: PortData)
    requires
        kind != PortKind::Invalid,
    ensures
        d == data_of(kind, addr),
{
    match kind {
        PortKind::AudioInput => PortData::AudioInput { base: addr, len: 0 },
        PortKind::AudioOutput => PortData::AudioOutput { base: addr, len: 0 },
        PortKind::ControlInput => PortData::ControlInput { base: addr },
        PortKind::ControlOutput => PortData::ControlOutput { base: addr },
        PortKind::Invalid => PortData::ControlInput { base: addr },
    }
}

/// One view re-derived for a processing call, as executable code.
fn rerun_data_exec(d: PortData, n: usize) -> (r: PortData)
    ensures
        r == rerun_data(d, n),
{
    match d {
        PortData::AudioInput { base, len: _ } => PortData::AudioInput { base, len: n },
        PortData::AudioOutput { base, len: _ } => PortData::AudioOutput { base, len: n },
        PortData::ControlInput { base } => PortData::ControlInput { base },
        PortData::ControlOutput { base } => PortData::ControlOutput { base },
    }
}

impl Handle {
    /// Creates the state of a fresh instantiation: no port connected,
    /// ordered port list empty.
    pub fn new(declared: Vec<Port>) -> (h: Handle)
        ensures
            h@.wf(),
            h@.declared == decls_view(declared@),
            h@.port_map.len() == declared@.len(),
            forall|i: int| 0 <= i < declared@.len() ==> h@.port_map[i] is None,
            h@.ports.len() == 0,
    {
        let n = declared.len();
        let mut port_map: Vec<Option<PortConnection>> = Vec::new();
        let mut i: usize = 0;
        while i < n
            invariant
                i <= n,
                port_map@.len() == i,
                forall|j: int| 0 <= j < i ==> port_map@[j] is None,
            decreases n - i,
        {
            port_map.push(None);
            i += 1;
        }
        let h = Handle { declared, port_map, ports: Vec::new() };
        proof {
            if h@.port_map.len() == 0 {
                assert(h@.ports =~= derived(h@.port_map));
            } else {
                assert(h@.port_map[0] is None);
                assert(!complete(h@.port_map));
            }
        }
        h
    }

    /// Connects host memory at `addr` to the declared port `port_num`:
    /// builds the typed view for the declared kind, inserts or replaces
    /// the slot, and rebuilds the ordered port list whenever the map
    /// then holds one entry per declared port. A slot whose declared
    /// kind is not one of the four valid combinations is refused; that
    /// is the fatal schema-corruption condition and the state is left
    /// unchanged.
    pub fn connect(&mut self, port_num: usize, addr: usize) -> (r: Result<(), ConnectError>)
        requires
            old(self)@.wf(),
            port_num < old(self)@.declared.len(),
        ensures
            final(self)@.wf(),
            final(self)@.declared == old(self)@.declared,
            r is Ok <==> old(self)@.declared[port_num as int].kind != PortKind::Invalid,
            r is Err ==> final(self)@ == old(self)@ && r->Err_0 == ConnectError::InvalidPortKind,
            r is Ok ==> final(self)@.port_map == old(self)@.port_map.update(
                port_num as int,
                Some(conn_of(old(self)@.declared[port_num as int], addr)),
            ),
            r is Ok ==> (complete(final(self)@.port_map) ==> final(self)@.ports == derived(
                final(self)@.port_map,
            )),
            r is Ok ==> (!complete(final(self)@.port_map) ==> final(self)@.ports == old(
                self,
            )@.ports),
    {
        let kind = self.declared[port_num].kind;
        if matches!(kind, PortKind::Invalid) {
            return Err(ConnectError::InvalidPortKind);
        }
        let data = build_data(kind, addr);
        let port = self.declared[port_num].clone();
        let conn = PortConnection { port, data };
        self.port_map.set(port_num, Some(conn));
        proof {
            assert(self@.port_map =~= old(self)@.port_map.update(
                port_num as int,
                Some(conn_of(old(self)@.declared[port_num as int], addr)),
            ));
            assert(self@.declared =~= old(self)@.declared);
        }
        if map_complete(&self.port_map) {
            let new_ports = derive_ports(&self.port_map);
            self.ports = new_ports;
        } else {
            proof {
                if complete(old(self)@.port_map) {
                    assert forall|k: int| 0 <= k < self@.port_map.len() implies self@.port_map[k]
                        is Some by {
                        assert(old(self)@.port_map[k] is Some);
                    }
                    assert(complete(self@.port_map));
                }
            }
        }
        proof {
            assert forall|k: int| 0 <= k < self@.port_map.len() implies #[trigger] self@.slot_ok(
                k,
            ) by {
                assert(old(self)@.slot_ok(k));
                if k == port_num as int {
                    assert(self@.port_map[k] == Some(
                        conn_of(old(self)@.declared[k], addr),
                    ));
                } else {
                    assert(self@.port_map[k] == old(self)@.port_map[k]);
                }
                assert(self@.declared[k] == old(self)@.declared[k]);
            }
        }
        Ok(())
    }

    /// Re-derives every buffer view for one processing call: each audio
    /// connection gets a fresh view of exactly `sample_count` samples
    /// over the base address stored at connect time, control
    /// connections pass through unchanged, and the ordered port list is
    /// read out anew. Nothing of an earlier call's sample count
    /// survives. The host contract demands that every declared port be
    /// connected before a processing call.
    pub fn prepare_run(&mut self, sample_count: usize)
        requires
            old(self)@.wf(),
            complete(old(self)@.port_map),
        ensures
            final(self)@.wf(),
            final(self)@.declared == old(self)@.declared,
            final(self)@.port_map == run_map(old(self)@.port_map, sample_count),
            final(self)@.ports == derived(final(self)@.port_map),
    {
        let n = self.port_map.len();
        let mut i: usize = 0;
        while i < n
            invariant
                n == self.port_map@.len(),
                n == old(self).port_map@.len(),
                i <= n,
                self.declared == old(self).declared,
                self.ports == old(self).ports,
                forall|j: int|
                    0 <= j < i ==> map_view(self.port_map@)[j] == run_map(
                        map_view(old(self).port_map@),
                        sample_count,
                    )[j],
                forall|j: int| i <= j < n ==> self.port_map@[j] == old(self).port_map@[j],
            decreases n - i,
        {
            let ghost prev = self.port_map@;
            let replacement: Option<PortConnection> = match &self.port_map[i] {
                Some(c) => Some(
                    PortConnection { port: c.port.clone(), data: rerun_data_exec(c.data, sample_count) },
                ),
                None => None,
            };
            self.port_map.set(i, replacement);
            proof {
                assert(self.port_map@ == prev.update(i as int, replacement));
                assert forall|j: int| 0 <= j <= i as int implies map_view(self.port_map@)[j]
                    == run_map(map_view(old(self).port_map@), sample_count)[j] by {
                    if j < i as int {
                        assert(self.port_map@[j] == prev[j]);
                        assert(map_view(self.port_map@)[j] == map_view(prev)[j]);
                    } else {
                        assert(map_view(self.port_map@)[i as int] == run_map(
                            map_view(old(self).port_map@),
                            sample_count,
                        )[i as int]);
                    }
                }
            }
            i += 1;
        }
        proof {
            assert(self@.port_map =~= run_map(old(self)@.port_map, sample_count));
            assert(complete(self@.port_map));
        }
        let new_ports = derive_ports(&self.port_map);
        self.ports = new_ports;
        proof {
            assert(self@.declared =~= old(self)@.declared);
            assert forall|k: int| 0 <= k < self@.port_map.len() implies #[trigger] self@.slot_ok(
                k,
            ) by {
                assert(old(self)@.slot_ok(k));
                assert(old(self)@.port_map[k] is Some);
                let pre = old(self)@.port_map[k]->Some_0;
                assert(self@.port_map[k] == run_map(old(self)@.port_map, sample_count)[k]);
                assert(self@.port_map[k] == Some(rerun(pre, sample_count)));
                assert(self@.declared[k] == old(self)@.declared[k]);
                assert(data_matches(pre.data, old(self)@.declared[k].kind));
                assert(data_matches(rerun_data(pre.data, sample_count), old(
                    self,
                )@.declared[k].kind));
            }
        }
    }
}

/// With every declared port connected, the ordered port list holds one
/// entry per declared port, indexed by port number: position `i` is the
/// connection of port number `i` and carries that port's metadata.
pub proof fn lemma_ports_indexed(h: HandleV)
    requires
        h.wf(),
        complete(h.port_map),
    ensures
        h.ports.len() == h.declared.len(),
        forall|i: int| 0 <= i < h.declared.len() ==> h.ports[i] == h.port_map[i]->Some_0,
        forall|i: int| 0 <= i < h.declared.len() ==> h.ports[i].port == h.declared[i],
{
    assert(h.ports == derived(h.port_map));
    assert forall|i: int| 0 <= i < h.declared.len() implies h.ports[i].port == h.declared[i] by {
        assert(h.slot_ok(i));
        assert(h.ports[i] == h.port_map[i]->Some_0);
    }
}

/// Reconnecting one port of a fully-connected handle updates exactly
/// that slot of the ordered port list and leaves every other slot as it
/// was.
pub proof fn lemma_reconnect_updates_one_slot(pre: HandleV, post: HandleV, p: int, addr: usize)
    requires
        pre.wf(),
        post.wf(),
        complete(pre.port_map),
        0 <= p < pre.declared.len(),
        post.declared == pre.declared,
        post.port_map == pre.port_map.update(p, Some(conn_of(pre.declared[p], addr))),
    ensures
        post.ports.len() == pre.ports.len(),
        forall|j: int| 0 <= j < pre.ports.len() && j != p ==> post.ports[j] == pre.ports[j],
        post.ports[p] == conn_of(pre.declared[p], addr),
{
    assert(complete(post.port_map));
    assert(pre.ports == derived(pre.port_map));
    assert(post.ports == derived(post.port_map));
}

/// A processing call derives every buffer view afresh from the stored
/// base address: running with one sample count and then another leaves
/// exactly the state that running with the second alone would have
/// left. No buffer length is cached across calls.
pub proof fn lemma_run_not_cached(m: Seq<Option<PortConnectionV>>, n1: usize, n2: usize)
    ensures
        run_map(run_map(m, n1), n2) == run_map(m, n2),
{
    assert(run_map(run_map(m, n1), n2) =~= run_map(m, n2));
}

/// What one connection looks like after a processing call with `n`
/// samples: an audio view keeps its connect-time base and takes exactly
/// `n` as its length; a control view is unchanged; port metadata is
/// untouched.
pub proof fn lemma_run_view(c: PortConnectionV, n: usize)
    ensures
        rerun(c, n).port == c.port,
        c.data matches PortData::AudioInput { base, len } ==> rerun(c, n).data == (
        PortData::AudioInput { base, len: n }),
        c.data matches PortData::AudioOutput { base, len } ==> rerun(c, n).data == (
        PortData::AudioOutput { base, len: n }),
        c.data matches PortData::ControlInput { base } ==> rerun(c, n).data == c.data,
        c.data matches PortData::ControlOutput { base } ==> rerun(c, n).data == c.data,
{
}

} // verus!
