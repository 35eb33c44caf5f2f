//! The mergeable multi-representation result of one or more operations.
//!
//! An accumulator maps content-kind identifiers to one rendered payload each,
//! and optionally carries an elapsed-time value in milliseconds.  Merging two
//! accumulators takes the union of their keys; on a key collision the later
//! value overwrites the earlier one.

use vstd::prelude::*;
use vstd::string::StringExecFns;
use crate::errors::Error;

verus! {

/// The content kind of plain-text payloads.
pub open spec fn kind_text_plain() -> Seq<char> {
    "text/plain"@
}

/// The content kind of structured-markup payloads.
pub open spec fn kind_text_html() -> Seq<char> {
    "text/html"@
}

/// The mapping described by an association list, later entries winning.
pub open spec fn map_of(es: Seq<(Seq<char>, Seq<char>)>) -> Map<Seq<char>, Seq<char>>
    decreases es.len(),
{
    if es.len() == 0 {
        Map::empty()
    } else {
        map_of(es.drop_last()).insert(es.last().0, es.last().1)
    }
}

/// Mathematical image of an `OutputAccumulator`.
pub struct AccV {
    pub content: Map<Seq<char>, Seq<char>>,
    pub timing: Option<u64>,
}

impl AccV {
    /// The accumulator every dispatch call starts from.
    pub open spec fn empty() -> AccV {
        AccV { content: Map::empty(), timing: None }
    }

    /// An accumulator holding one plain-text payload and nothing else.
    pub open spec fn text(t: Seq<char>) -> AccV {
        AccV { content: Map::empty().insert(kind_text_plain(), t), timing: None }
    }

    /// Merge: union of keys, the later accumulator winning collisions; a
    /// present elapsed time of the later accumulator replaces the earlier.
    pub open spec fn merge(self, other: AccV) -> AccV {
        AccV {
            content: self.content.union_prefer_right(other.content),
            timing: match other.timing {
                Some(t) => Some(t),
                None => self.timing,
            },
        }
    }
}

/// A mergeable result value: one rendered payload per content kind, plus an
/// optional elapsed-time value.
pub struct OutputAccumulator {
    entries: Vec<(String, String)>,
    timing: Option<u64>,
}

impl View for OutputAccumulator {
    type V = AccV;

    closed spec fn view(&self) -> AccV {
        AccV { content: map_of(self.entries.deep_view()), timing: self.timing }
    }
}

proof fn lemma_map_of_take_push(es: Seq<(Seq<char>, Seq<char>)>, i: int)
    requires
        0 <= i < es.len(),
    ensures
        map_of(es.take(i + 1)) == map_of(es.take(i)).insert(es[i].0, es[i].1),
{
    assert(es.take(i + 1).drop_last() =~= es.take(i));
    assert(es.take(i + 1).last() == es[i]);
}

proof fn lemma_map_of_absent(es: Seq<(Seq<char>, Seq<char>)>, k: Seq<char>)
    requires
        forall|i: int| 0 <= i < es.len() ==> (#[trigger] es[i]).0 != k,
    ensures
        !map_of(es).contains_key(k),
    decreases es.len(),
{
    if es.len() > 0 {
        lemma_map_of_absent(es.drop_last(), k);
    }
}

proof fn lemma_map_of_found(es: Seq<(Seq<char>, Seq<char>)>, i: int)
    requires
        0 <= i < es.len(),
        forall|j: int| i < j < es.len() ==> (#[trigger] es[j]).0 != es[i].0,
    ensures
        map_of(es).contains_key(es[i].0),
        map_of(es)[es[i].0] == es[i].1,
    decreases es.len(),
{
    if i + 1 == es.len() {
    } else {
        lemma_map_of_found(es.drop_last(), i);
    }
}

proof fn lemma_map_of_update(es: Seq<(Seq<char>, Seq<char>)>, i: int, v: Seq<char>)
    requires
        0 <= i < es.len(),
        forall|j: int| i < j < es.len() ==> (#[trigger] es[j]).0 != es[i].0,
    ensures
        map_of(es.update(i, (es[i].0, v))) == map_of(es).insert(es[i].0, v),
    decreases es.len(),
{
    let up = es.update(i, (es[i].0, v));
    if i + 1 == es.len() {
        assert(up.drop_last() =~= es.drop_last());
        assert(map_of(up) =~= map_of(es).insert(es[i].0, v));
    } else {
        lemma_map_of_update(es.drop_last(), i, v);
        assert(up.drop_last() =~= es.drop_last().update(i, (es[i].0, v)));
        assert(up.last() == es.last());
        assert(map_of(up) == map_of(es.drop_last()).insert(es[i].0, v).insert(
            es.last().0,
            es.last().1,
        ));
        assert(es.last().0 != es[i].0);
        assert(map_of(up) =~= map_of(es).insert(es[i].0, v));
    }
}

impl OutputAccumulator {
    /// Later entries never repeat an earlier key; every accumulator the
    /// library itself builds satisfies this.
    pub closed spec fn wf(self) -> bool {
        forall|i: int, j: int|
            0 <= i < j < self.entries.deep_view().len() ==> (#[trigger] self.entries.deep_view()[i]).0
                != (#[trigger] self.entries.deep_view()[j]).0
    }

    /// An empty accumulator.
    pub fn new() -> (r: OutputAccumulator)
        ensures
            r@ == AccV::empty(),
            r.wf(),
    {
        let r = OutputAccumulator { entries: Vec::new(), timing: None };
        proof {
            assert(r.entries.deep_view() =~= Seq::<(Seq<char>, Seq<char>)>::empty());
        }
        r
    }

    /// Stores `payload` under `kind`, replacing any earlier payload of that
    /// kind.
    #[verifier::loop_isolation(false)]
    pub fn insert(&mut self, kind: String, payload: String)
        requires
            old(self).wf(),
        ensures
            final(self).wf(),
            final(self)@.content == old(self)@.content.insert(kind@, payload@),
            final(self)@.timing == old(self)@.timing,
    {
        let ghost old_entries = self.entries.deep_view();
        let mut found: Option<usize> = None;
        let mut i: usize = 0;
        while found.is_none() && i < self.entries.len()
            invariant
                i <= self.entries.len(),
                forall|j: int| 0 <= j < i ==> (#[trigger] old_entries[j]).0 != kind@,
                match found {
                    Some(at) => at < self.entries.len() && old_entries[at as int].0 == kind@,
                    None => true,
                },
            decreases self.entries.len() - i + (if found is None { 1int } else { 0int }),
        {
            if self.entries[i].0 == kind {
                found = Some(i);
            } else {
                i = i + 1;
            }
        }
        match found {
            Some(at) => {
                let k = self.entries[at].0.clone();
                self.entries.set(at, (k, payload));
                proof {
                    assert(self.entries.deep_view() =~= old_entries.update(
                        at as int,
                        (old_entries[at as int].0, payload@),
                    ));
                    lemma_map_of_update(old_entries, at as int, payload@);
                    assert(old_entries[at as int].0 == kind@);
                }
            },
            None => {
                self.entries.push((kind, payload));
                proof {
                    assert(self.entries.deep_view() =~= old_entries.push((kind@, payload@)));
                    assert(self.entries.deep_view().drop_last() =~= old_entries);
                }
            },
        }
    }

    /// The payload stored under `kind`, if any.
    #[verifier::loop_isolation(false)]
    pub fn get(&self, kind: &String) -> (r: Option<&String>)
        requires
            self.wf(),
        ensures
            match r {
                Some(p) => self@.content.contains_key(kind@) && p@ == self@.content[kind@],
                None => !self@.content.contains_key(kind@),
            },
    {
        let ghost es = self.entries.deep_view();
        let mut i: usize = 0;
        while i < self.entries.len()
            invariant
                i <= self.entries.len(),
                forall|j: int| 0 <= j < i ==> (#[trigger] es[j]).0 != kind@,
            decreases self.entries.len() - i,
        {
            if self.entries[i].0 == *kind {
                proof {
                    lemma_map_of_found(es, i as int);
                }
                return Some(&self.entries[i].1);
            }
            i = i + 1;
        }
        proof {
            lemma_map_of_absent(es, kind@);
        }
        None
    }

    /// The elapsed-time value attached to this accumulator, if any.
    pub fn timing(&self) -> (t: Option<u64>)
        ensures
            t == self@.timing,
    {
        self.timing
    }

    /// Attaches an elapsed-time value.
    pub fn set_timing(&mut self, ms: u64)
        requires
            old(self).wf(),
        ensures
            final(self).wf(),
            final(self)@.content == old(self)@.content,
            final(self)@.timing == Some(ms),
    {
        self.timing = Some(ms);
    }

    /// Merges `other` into this accumulator: union of keys, `other` winning
    /// collisions, and `other`'s elapsed time, when present, replacing this
    /// one's.
    #[verifier::loop_isolation(false)]
    pub fn merge(&mut self, other: OutputAccumulator)
        requires
            old(self).wf(),
        ensures
            final(self).wf(),
            final(self)@ == old(self)@.merge(other@),
    {
        let ghost oes = other.entries.deep_view();
        let ghost base = self@.content;
        let mut i: usize = 0;
        while i < other.entries.len()
            invariant
                i <= other.entries.len(),
                self.wf(),
                self@.content == base.union_prefer_right(map_of(oes.take(i as int))),
                self@.timing == old(self)@.timing,
            decreases other.entries.len() - i,
        {
            let k = other.entries[i].0.clone();
            let p = other.entries[i].1.clone();
            self.insert(k, p);
            proof {
                lemma_map_of_take_push(oes, i as int);
                vstd::map_lib::lemma_union_insert_right(
                    base,
                    map_of(oes.take(i as int)),
                    oes[i as int].0,
                    oes[i as int].1,
                );
            }
            i = i + 1;
        }
        proof {
            assert(oes.take(oes.len() as int) =~= oes);
        }
        match other.timing {
            Some(t) => {
                self.timing = Some(t);
            },
            None => {},
        }
        proof {
            assert(self@ =~= old(self)@.merge(other@));
        }
    }
}

/// Wraps a single-line plain-text status: the text plus a line terminator,
/// stored under the plain-text content kind.  Never fails; the `Result` shape
/// mirrors the dispatch operations that produce such statuses.
pub fn text_output(text: &str) -> (r: Result<OutputAccumulator, Error>)
    ensures
        r is Ok,
        r->Ok_0@ == AccV::text(text@ + "\n"@),
        r->Ok_0.wf(),
{
    let mut content = String::from_str(text);
    content.append("\n");
    let mut outputs = OutputAccumulator::new();
    outputs.insert(String::from_str("text/plain"), content);
    Ok(outputs)
}

} // verus!
