//! The storage composition's read and write paths over ordered layers: layer
//! zero is the local persistent cache, later layers are remote. A read
//! queries the layers in order and stops at the first that holds the key; the
//! layers queried before it missed and are filled with the value. A write
//! goes to every layer, the local cache first.
use vstd::prelude::*;

verus! {

/// What the driver of a read does next.
#[derive(Clone, Copy, Debug, PartialEq, Eq, Structural)]
pub enum ReadAction {
    /// Look the key up in the given layer and report whether it was found.
    Query(usize),
    /// Serve the value found in the given layer, and fill every layer before it.
    Serve(usize),
    /// No layer holds the key.
    Missing,
}

/// A layer's contents: values by key.
pub type Layer = Map<Seq<u8>, Seq<u8>>;

/// Whether each layer holds `key`, in layer order.
pub open spec fn hits_of(layers: Seq<Layer>, key: Seq<u8>) -> Seq<bool> {
    Seq::new(layers.len(), |i: int| layers[i].contains_key(key))
}

/// The action after layer `layer` of `count` reported `found`.
pub open spec fn read_step(count: nat, layer: nat, found: bool) -> ReadAction {
    if found {
        ReadAction::Serve(layer as usize)
    } else if layer + 1 < count {
        ReadAction::Query((layer + 1) as usize)
    } else {
        ReadAction::Missing
    }
}

/// The first layer, from `from` on, whose entry in `hits` is true.
pub open spec fn first_hit(hits: Seq<bool>, from: nat) -> Option<nat>
    decreases hits.len() - from,
{
    if from >= hits.len() {
        None
    } else if hits[from as int] {
        Some(from)
    } else {
        first_hit(hits, from + 1)
    }
}

/// The layers after a write of `value` under `key` through the composition.
pub open spec fn write_spec(layers: Seq<Layer>, key: Seq<u8>, value: Seq<u8>) -> Seq<Layer> {
    Seq::new(layers.len(), |i: int| layers[i].insert(key, value))
}

/// One read in progress over `count` layers.
pub struct ReadCursor {
    count: usize,
    layer: usize,
    done: bool,
}

impl ReadCursor {
    /// Number of layers.
    pub closed spec fn count_spec(&self) -> nat {
        self.count as nat
    }

    /// The layer to be queried next (while the read is not done).
    pub closed spec fn layer_spec(&self) -> nat {
        self.layer as nat
    }

    /// Whether the read has come to an end.
    pub closed spec fn done_spec(&self) -> bool {
        self.done
    }

    pub closed spec fn wf(&self) -> bool {
        self.layer < self.count || self.done
    }

    /// A read over `count` layers, to start at layer zero.
    pub fn new(count: usize) -> (r: ReadCursor)
        ensures
            r.wf(),
            r.count_spec() == count,
            r.layer_spec() == 0,
            r.done_spec() == (count == 0),
    {
        ReadCursor { count, layer: 0, done: count == 0 }
    }

    /// The first action of the read: query layer zero, or report the key
    /// missing when there are no layers.
    pub fn first_action(&self) -> (r: ReadAction)
        ensures
            self.count_spec() == 0 ==> r == ReadAction::Missing,
            self.count_spec() > 0 ==> r == ReadAction::Query(0),
    {
        if self.count == 0 {
            ReadAction::Missing
        } else {
            ReadAction::Query(0)
        }
    }

    /// Records whether the layer just queried held the key, and says what
    /// comes next. Once the key is found no later layer is queried.
    pub fn on_lookup(&mut self, found: bool) -> (r: ReadAction)
        requires
            old(self).wf(),
            !old(self).done_spec(),
        ensures
            final(self).wf(),
            final(self).count_spec() == old(self).count_spec(),
            r == read_step(old(self).count_spec(), old(self).layer_spec(), found),
            final(self).done_spec() == !(r is Query),
            r is Query ==> final(self).layer_spec() == old(self).layer_spec() + 1,
    {
        if found {
            self.done = true;
            ReadAction::Serve(self.layer)
        } else if self.layer + 1 < self.count {
            self.layer = self.layer + 1;
            ReadAction::Query(self.layer)
        } else {
            self.done = true;
            ReadAction::Missing
        }
    }
}

/// The layers a write goes to, in order: every layer, the local cache first.
pub fn write_order(count: usize) -> (r: Vec<usize>)
    ensures
        r@.len() == count,
        forall|i: int| 0 <= i < count ==> #[trigger] r@[i] == i,
{
    let mut r: Vec<usize> = Vec::new();
    let mut i: usize = 0;
    while i < count
        invariant
            i <= count,
            r@.len() == i,
            forall|j: int| 0 <= j < i ==> #[trigger] r@[j] == j,
        decreases count - i,
    {
        r.push(i);
        i = i + 1;
    }
    r
}

/// The action a read ends with when started at layer `layer`, given whether
/// each layer holds the key.
pub open spec fn read_outcome(hits: Seq<bool>, layer: nat) -> ReadAction
    decreases hits.len() - layer,
{
    if layer >= hits.len() {
        ReadAction::Missing
    } else {
        match read_step(hits.len(), layer, hits[layer as int]) {
            ReadAction::Query(_) => read_outcome(hits, layer + 1),
            other => other,
        }
    }
}

/// Layers are consulted in order: a read that starts at the local cache
/// ends serving the first layer that holds the key, and reports the key
/// missing only when no layer holds it.
pub proof fn lemma_read_serves_first_hit(hits: Seq<bool>, layer: nat)
    requires
        layer <= hits.len(),
        hits.len() < usize::MAX,
    ensures
        read_outcome(hits, layer) == match first_hit(hits, layer) {
            Some(i) => ReadAction::Serve(i as usize),
            None => ReadAction::Missing,
        },
    decreases hits.len() - layer,
{
    if layer < hits.len() {
        lemma_read_serves_first_hit(hits, layer + 1);
    }
}

/// Read after write: once a value is written through the composition, a read
/// of its key is served by the local cache, the first layer queried, with no
/// later layer reached, and the value is the one written.
pub proof fn lemma_read_after_write_hits_cache(
    layers: Seq<Layer>,
    key: Seq<u8>,
    value: Seq<u8>,
)
    requires
        layers.len() > 0,
    ensures
        hits_of(write_spec(layers, key, value), key)[0],
        first_hit(hits_of(write_spec(layers, key, value), key), 0) == Some(0nat),
        read_step(layers.len(), 0, hits_of(write_spec(layers, key, value), key)[0])
            == ReadAction::Serve(0),
        write_spec(layers, key, value)[0][key] == value,
{
    let after = write_spec(layers, key, value);
    assert(after[0] == layers[0].insert(key, value));
    assert(after[0].contains_key(key));
}

} // verus!
