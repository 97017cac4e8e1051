//! Stable round-robin color assignment for traffic sources.
//!
//! Each distinct source key is assigned the next color of a fixed palette in
//! the order in which keys are first observed; the assignment is remembered
//! for the rest of the run, so one key always shows one color.

use vstd::prelude::*;

verus! {

/// A terminal display color that the palette can hold.
///
/// The standard palette orders these to reduce adjacent-color similarity,
/// which is a presentation choice, not a correctness requirement.
#[derive(Clone, Copy, PartialEq, Eq, Structural, Debug)]
pub enum DisplayColor {
    Cyan,
    Yellow,
    Red,
    Magenta,
    Green,
    Blue,
}

/// The identity under which a traffic source is colorized: its IPv4 source
/// address, together with its source port when the color mode keys by
/// address and port.
#[derive(Clone, Copy, PartialEq, Eq, Structural, Debug)]
pub struct SourceKey {
    pub addr: Ipv4Address,
    pub port: Option<u16>,
}

/// An IPv4 address as its four dotted-quad octets.
#[derive(Clone, Copy, PartialEq, Eq, Structural, Debug)]
pub struct Ipv4Address {
    pub o1: u8,
    pub o2: u8,
    pub o3: u8,
    pub o4: u8,
}

/// The color of the key at position `i` of the first-seen order: colors are
/// handed out round-robin, so position `i` wears palette entry `i % len`.
pub open spec fn palette_at(palette: Seq<DisplayColor>, i: int) -> DisplayColor
    recommends
        palette.len() >= 1,
{
    palette[i % (palette.len() as int)]
}

/// How one observation changes the first-seen key order: a known key changes
/// nothing, a fresh key is appended.
pub open spec fn assign_keys(keys: Seq<SourceKey>, k: SourceKey) -> Seq<SourceKey> {
    if keys.contains(k) {
        keys
    } else {
        keys.push(k)
    }
}

/// The color a key wears once it stands in the first-seen order `keys`.
pub open spec fn color_of(palette: Seq<DisplayColor>, keys: Seq<SourceKey>, k: SourceKey) -> DisplayColor
    recommends
        palette.len() >= 1,
        keys.contains(k),
{
    palette_at(palette, keys.index_of(k))
}

/// The first-seen key order after observing a whole sequence of keys in turn.
pub open spec fn run_keys(keys: Seq<SourceKey>, input: Seq<SourceKey>) -> Seq<SourceKey>
    decreases input.len(),
{
    if input.len() == 0 {
        keys
    } else {
        run_keys(assign_keys(keys, input[0]), input.skip(1))
    }
}

/// The color assignment engine: a fixed palette, the keys in first-seen
/// order, and the color recorded for each. The table is append-only; its
/// growth (one entry per distinct source) is an accepted tradeoff, never
/// capped. The round-robin cursor is the number of keys seen so far, taken
/// modulo the palette length.
pub struct ColorEngine {
    palette: Vec<DisplayColor>,
    keys: Vec<SourceKey>,
    colors: Vec<DisplayColor>,
}

impl ColorEngine {
    /// The palette the engine was created with.
    pub closed spec fn palette_seq(self) -> Seq<DisplayColor> {
        self.palette@
    }

    /// The distinct keys in the order they were first observed.
    pub closed spec fn seen(self) -> Seq<SourceKey> {
        self.keys@
    }

    /// The colors recorded beside `seen`, position by position.
    pub closed spec fn recorded(self) -> Seq<DisplayColor> {
        self.colors@
    }

    /// Internal consistency: a nonempty palette, no key twice, and the
    /// recorded color of the key at position `i` is palette entry `i % len`.
    pub open spec fn wf(self) -> bool {
        &&& self.palette_seq().len() >= 1
        &&& self.seen().no_duplicates()
        &&& self.recorded().len() == self.seen().len()
        &&& forall|i: int|
            0 <= i < self.seen().len() ==> self.recorded()[i] == palette_at(
                self.palette_seq(),
                i,
            )
    }

    /// The key-to-color mapping the engine has built up so far.
    pub open spec fn table(self) -> Map<SourceKey, DisplayColor> {
        Map::new(
            |k: SourceKey| self.seen().contains(k),
            |k: SourceKey| color_of(self.palette_seq(), self.seen(), k),
        )
    }

    /// A fresh engine over the given palette, with nothing assigned yet.
    pub fn new(palette: Vec<DisplayColor>) -> (engine: Self)
        requires
            palette@.len() >= 1,
        ensures
            engine.wf(),
            engine.palette_seq() == palette@,
            engine.seen() == Seq::<SourceKey>::empty(),
    {
        ColorEngine { palette, keys: Vec::new(), colors: Vec::new() }
    }

    /// A fresh engine over the standard six-color palette.
    pub fn standard() -> (engine: Self)
        ensures
            engine.wf(),
            engine.palette_seq() == standard_palette(),
            engine.seen() == Seq::<SourceKey>::empty(),
    {
        let mut palette: Vec<DisplayColor> = Vec::new();
        palette.push(DisplayColor::Cyan);
        palette.push(DisplayColor::Yellow);
        palette.push(DisplayColor::Red);
        palette.push(DisplayColor::Magenta);
        palette.push(DisplayColor::Green);
        palette.push(DisplayColor::Blue);
        proof {
            assert(palette@ =~= standard_palette());
        }
        ColorEngine::new(palette)
    }

    /// How many distinct keys have been assigned a color so far; this is the
    /// monotonic round-robin cursor before the modulo is taken.
    pub fn assigned_count(&self) -> (n: usize)
        ensures
            n == self.seen().len(),
    {
        self.keys.len()
    }

    /// Look a key up without assigning anything.
    pub fn lookup(&self, k: &SourceKey) -> (r: Option<DisplayColor>)
        requires
            self.wf(),
        ensures
            self.table().contains_key(*k) ==> r == Some(self.table()[*k]),
            !self.table().contains_key(*k) ==> r is None,
    {
        let n = self.keys.len();
        let mut i: usize = 0;
        while i < n
            invariant
                self.wf(),
                n == self.seen().len(),
                0 <= i <= n,
                forall|j: int| 0 <= j < i ==> self.seen()[j] != *k,
            decreases n - i,
        {
            if self.keys[i] == *k {
                proof {
                    lemma_index_of_unique(self.seen(), *k, i as int);
                }
                return Some(self.colors[i]);
            }
            i = i + 1;
        }
        None
    }

    /// Return the key's color, assigning the next palette color round-robin
    /// if the key has never been seen before. A known key mutates nothing.
    pub fn color_for(&mut self, k: &SourceKey) -> (c: DisplayColor)
        requires
            old(self).wf(),
        ensures
            final(self).wf(),
            final(self).palette_seq() == old(self).palette_seq(),
            final(self).seen() == assign_keys(old(self).seen(), *k),
            c == color_of(final(self).palette_seq(), final(self).seen(), *k),
            final(self).table() == old(self).table().insert(*k, c),
            old(self).seen().contains(*k) ==> *final(self) == *old(self),
    {
        let n = self.keys.len();
        let mut i: usize = 0;
        while i < n
            invariant
                self.wf(),
                n == self.seen().len(),
                0 <= i <= n,
                forall|j: int| 0 <= j < i ==> self.seen()[j] != *k,
            decreases n - i,
        {
            if self.keys[i] == *k {
                let c = self.colors[i];
                proof {
                    lemma_index_of_unique(self.seen(), *k, i as int);
                    assert(self.table() =~= self.table().insert(*k, c));
                }
                return c;
            }
            i = i + 1;
        }
        let idx = self.keys.len() % self.palette.len();
        let c = self.palette[idx];
        self.keys.push(*k);
        self.colors.push(c);
        proof {
            broadcast use vstd::seq_lib::lemma_seq_contains_after_push;

            let p = self.palette_seq();
            let oldseen = old(self).seen();
            let newseen = self.seen();
            assert(!oldseen.contains(*k));
            assert(newseen == oldseen.push(*k));
            assert(newseen[oldseen.len() as int] == *k);
            lemma_index_of_unique(newseen, *k, oldseen.len() as int);
            assert(newseen.no_duplicates());
            assert forall|j: int| 0 <= j < newseen.len() implies self.recorded()[j] == palette_at(
                p,
                j,
            ) by {
                if j < oldseen.len() {
                    assert(old(self).recorded()[j] == palette_at(p, j));
                }
            }
            assert(color_of(p, newseen, *k) == c);
            assert forall|k2: SourceKey| #[trigger] oldseen.contains(k2) implies color_of(
                p,
                newseen,
                k2,
            ) == color_of(p, oldseen, k2) by {
                lemma_color_unchanged_by_push(p, oldseen, k2, *k);
            }
            assert(self.table() =~= old(self).table().insert(*k, c));
        }
        c
    }

    /// Observe a whole sequence of keys in order, assigning colors to the
    /// fresh ones as they appear.
    pub fn assign_all(&mut self, input: &Vec<SourceKey>)
        requires
            old(self).wf(),
        ensures
            final(self).wf(),
            final(self).palette_seq() == old(self).palette_seq(),
            final(self).seen() == run_keys(old(self).seen(), input@),
    {
        let n = input.len();
        let mut i: usize = 0;
        proof {
            assert(input@.skip(0) =~= input@);
        }
        while i < n
            invariant
                self.wf(),
                n == input@.len(),
                0 <= i <= n,
                self.palette_seq() == old(self).palette_seq(),
                run_keys(self.seen(), input@.skip(i as int)) == run_keys(
                    old(self).seen(),
                    input@,
                ),
            decreases n - i,
        {
            let ghost before = self.seen();
            self.color_for(&input[i]);
            proof {
                assert(input@.skip(i as int)[0] == input@[i as int]);
                assert(input@.skip(i as int).skip(1) =~= input@.skip(i as int + 1));
                assert(run_keys(before, input@.skip(i as int)) == run_keys(
                    self.seen(),
                    input@.skip(i as int + 1),
                ));
            }
            i = i + 1;
        }
        proof {
            assert(input@.skip(n as int) =~= Seq::<SourceKey>::empty());
        }
    }
}

/// The six standard palette colors, ordered to keep neighbours dissimilar.
pub open spec fn standard_palette() -> Seq<DisplayColor> {
    seq![
        DisplayColor::Cyan,
        DisplayColor::Yellow,
        DisplayColor::Red,
        DisplayColor::Magenta,
        DisplayColor::Green,
        DisplayColor::Blue,
    ]
}

/// Law: a key keeps the one color it was first assigned. Re-observing a known
/// key changes nothing, and later observations — of it or of any other key —
/// leave its color exactly as it was.
pub proof fn lemma_assignment_stable(
    palette: Seq<DisplayColor>,
    keys: Seq<SourceKey>,
    k: SourceKey,
    other: SourceKey,
)
    requires
        palette.len() >= 1,
        keys.no_duplicates(),
        keys.contains(k),
    ensures
        assign_keys(keys, k) == keys,
        color_of(palette, assign_keys(keys, other), k) == color_of(palette, keys, k),
{
    if !keys.contains(other) {
        lemma_color_unchanged_by_push(palette, keys, k, other);
    }
}

/// Law: colors follow first-seen order. The key standing at position `i` of
/// the first-seen order wears palette entry `i % len`, however many repeat
/// observations of other keys were interleaved; in particular the first three
/// distinct keys wear palette entries 0, 1 and 2.
pub proof fn lemma_color_by_first_seen_order(
    palette: Seq<DisplayColor>,
    keys: Seq<SourceKey>,
    i: int,
)
    requires
        palette.len() >= 1,
        keys.no_duplicates(),
        0 <= i < keys.len(),
    ensures
        color_of(palette, keys, keys[i]) == palette[i % (palette.len() as int)],
{
    lemma_index_of_unique(keys, keys[i], i);
}

/// Law: the palette wraps. Once as many distinct keys as the palette has
/// colors have been assigned, the next fresh key receives the first palette
/// color again.
pub proof fn lemma_palette_wraparound(
    palette: Seq<DisplayColor>,
    keys: Seq<SourceKey>,
    k: SourceKey,
)
    requires
        palette.len() >= 1,
        keys.no_duplicates(),
        !keys.contains(k),
        keys.len() == palette.len(),
    ensures
        color_of(palette, assign_keys(keys, k), k) == palette[0],
{
    let pushed = keys.push(k);
    assert(pushed[keys.len() as int] == k);
    assert(pushed.no_duplicates());
    lemma_index_of_unique(pushed, k, keys.len() as int);
    let n = palette.len() as int;
    assert(n % n == 0) by (nonlinear_arith)
        requires
            n >= 1,
    ;
}

/// Law: re-running the engine over the exact same ordered key sequence from a
/// fresh table reproduces the identical first-seen order, and with it the
/// identical key-to-color mapping.
pub proof fn lemma_replay_reproducible(
    palette: Seq<DisplayColor>,
    input: Seq<SourceKey>,
    keys1: Seq<SourceKey>,
    keys2: Seq<SourceKey>,
)
    requires
        keys1 == run_keys(Seq::<SourceKey>::empty(), input),
        keys2 == run_keys(Seq::<SourceKey>::empty(), input),
    ensures
        keys1 == keys2,
        forall|k: SourceKey| #[trigger] keys1.contains(k) ==> color_of(palette, keys1, k)
            == color_of(palette, keys2, k),
{
}

/// Observing any input sequence only extends the first-seen order: it stays
/// duplicate-free, it holds exactly the keys already known or just observed,
/// and every key already known keeps its position.
pub proof fn lemma_run_keys_extends(keys: Seq<SourceKey>, input: Seq<SourceKey>)
    requires
        keys.no_duplicates(),
    ensures
        run_keys(keys, input).no_duplicates(),
        run_keys(keys, input).len() >= keys.len(),
        forall|i: int| 0 <= i < keys.len() ==> run_keys(keys, input)[i] == keys[i],
        forall|k: SourceKey| #[trigger] run_keys(keys, input).contains(k) <==> keys.contains(k)
            || input.contains(k),
    decreases input.len(),
{
    broadcast use vstd::seq_lib::lemma_seq_contains_after_push;

    if input.len() == 0 {
        assert(forall|k: SourceKey| !input.contains(k));
    } else {
        let first = input[0];
        let stepped = assign_keys(keys, first);
        assert(stepped.no_duplicates());
        lemma_run_keys_extends(stepped, input.skip(1));
        assert forall|k: SourceKey| input.contains(k) implies first == k || input.skip(1).contains(
            k,
        ) by {
            let i = choose|i: int| 0 <= i < input.len() && input[i] == k;
            if i > 0 {
                assert(input.skip(1)[i - 1] == k);
            }
        }
        assert forall|k: SourceKey| input.skip(1).contains(k) implies input.contains(k) by {
            let i = choose|i: int| 0 <= i < input.skip(1).len() && input.skip(1)[i] == k;
            assert(input[i + 1] == k);
        }
        assert(input.contains(first)) by {
            assert(input[0] == first);
        }
        assert forall|i: int| 0 <= i < keys.len() implies run_keys(keys, input)[i] == keys[i] by {
            assert(run_keys(keys, input) == run_keys(stepped, input.skip(1)));
            assert(run_keys(stepped, input.skip(1))[i] == stepped[i]);
            assert(stepped[i] == keys[i]);
        }
    }
}

/// Law: a key, once assigned, maps to the same color for the remainder of
/// the run — whatever mix of fresh keys and repeat observations follows.
pub proof fn lemma_color_stable_across_run(
    palette: Seq<DisplayColor>,
    keys: Seq<SourceKey>,
    input: Seq<SourceKey>,
    k: SourceKey,
)
    requires
        palette.len() >= 1,
        keys.no_duplicates(),
        keys.contains(k),
    ensures
        run_keys(keys, input).contains(k),
        color_of(palette, run_keys(keys, input), k) == color_of(palette, keys, k),
{
    lemma_run_keys_extends(keys, input);
    let i = keys.index_of(k);
    assert(keys[i] == k);
    assert(run_keys(keys, input)[i] == k);
    lemma_index_of_unique(run_keys(keys, input), k, i);
    lemma_index_of_unique(keys, k, i);
}

/// In a duplicate-free key order, the position of a key is the only index
/// that holds it.
pub proof fn lemma_index_of_unique(keys: Seq<SourceKey>, k: SourceKey, i: int)
    requires
        keys.no_duplicates(),
        0 <= i < keys.len(),
        keys[i] == k,
    ensures
        keys.contains(k),
        keys.index_of(k) == i,
{
    assert(keys.contains(k));
    let j = keys.index_of(k);
    assert(keys[j] == k);
}

/// Appending a fresh key leaves the color of every already-known key as it
/// was: earlier positions do not move.
pub proof fn lemma_color_unchanged_by_push(
    palette: Seq<DisplayColor>,
    keys: Seq<SourceKey>,
    k: SourceKey,
    fresh: SourceKey,
)
    requires
        keys.no_duplicates(),
        keys.contains(k),
        !keys.contains(fresh),
    ensures
        keys.push(fresh).index_of(k) == keys.index_of(k),
        color_of(palette, keys.push(fresh), k) == color_of(palette, keys, k),
{
    let i = keys.index_of(k);
    assert(keys[i] == k);
    let pushed = keys.push(fresh);
    assert(pushed[i] == k);
    assert(pushed.no_duplicates());
    lemma_index_of_unique(pushed, k, i);
}

} // verus!
