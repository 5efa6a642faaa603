//! The tree in which files are counted by tag, one level per tag.

use std::rc::Rc;
use vstd::prelude::*;

use crate::tags::AudioTag;
use crate::text::text_eq;

verus! {

/// One level of the aggregation: the tag aggregated at this level, how many
/// files were counted there, and the next level; `Nil` ends the chain.
#[derive(Debug, PartialEq)]
pub enum TagAggregatorResult {
    Value { tag: AudioTag, count: Rc<usize>, child: Box<TagAggregatorResult> },
    Nil,
}

impl TagAggregatorResult {
    /// The levels from this one down, each as its tag and count.
    pub open spec fn levels(&self) -> Seq<(AudioTag, usize)>
        decreases self,
    {
        match self {
            TagAggregatorResult::Value { tag, count, child } => seq![(*tag, **count)]
                + child.levels(),
            TagAggregatorResult::Nil => Seq::empty(),
        }
    }
}

impl Clone for TagAggregatorResult {
    fn clone(&self) -> (r: Self)
        ensures
            r.levels() == self.levels(),
        decreases self,
    {
        match self {
            TagAggregatorResult::Value { tag, count, child } => TagAggregatorResult::Value {
                tag: *tag,
                count: Rc::new(**count),
                child: Box::new((**child).clone()),
            },
            TagAggregatorResult::Nil => TagAggregatorResult::Nil,
        }
    }
}

/// Builds the chain of levels for `tags`, in their order, every count at 0.
pub fn build_structure(tags: &Vec<AudioTag>) -> (r: Box<TagAggregatorResult>)
    ensures
        r.levels() == tags@.map_values(|t: AudioTag| (t, 0usize)),
{
    let mut model = TagAggregatorResult::Nil;
    let mut i: usize = tags.len();
    while i > 0
        invariant
            i <= tags@.len(),
            model.levels() == tags@.subrange(i as int, tags@.len() as int).map_values(
                |t: AudioTag| (t, 0usize),
            ),
        decreases i,
    {
        i = i - 1;
        let val = TagAggregatorResult::Value {
            tag: tags[i],
            count: Rc::new(0),
            child: Box::new(model),
        };
        assert(tags@.subrange(i as int, tags@.len() as int) =~= seq![tags@[i as int]]
            + tags@.subrange(i + 1, tags@.len() as int));
        assert(tags@.subrange(i as int, tags@.len() as int).map_values(|t: AudioTag| (t, 0usize))
            =~= seq![(tags@[i as int], 0usize)] + tags@.subrange(i + 1, tags@.len() as int).map_values(
            |t: AudioTag| (t, 0usize),
        ));
        model = val;
    }
    assert(tags@.subrange(0, tags@.len() as int) =~= tags@);
    Box::new(model)
}

/// Number of files that gave one tag value.
#[derive(Clone, Debug)]
pub struct TagCount {
    pub value: String,
    pub count: u64,
}

/// Files counted by the value of a tag, values in order of first sight, each
/// value once.
#[derive(Clone, Debug)]
pub struct TagCounts {
    entries: Vec<TagCount>,
}

/// One more, saturating at the largest count.
pub open spec fn incremented(n: u64) -> u64 {
    if n < u64::MAX {
        (n + 1) as u64
    } else {
        n
    }
}

impl View for TagCounts {
    type V = Seq<(Seq<char>, u64)>;

    closed spec fn view(&self) -> Seq<(Seq<char>, u64)> {
        self.entries@.map_values(|e: TagCount| (e.value@, e.count))
    }
}

impl TagCounts {
    /// Each value appears once.
    pub open spec fn wf(&self) -> bool {
        forall|i: int, j: int|
            0 <= i < j < self@.len() ==> (#[trigger] self@[i]).0 != (#[trigger] self@[j]).0
    }

    pub fn new() -> (r: TagCounts)
        ensures
            r@ == Seq::<(Seq<char>, u64)>::empty(),
            r.wf(),
    {
        TagCounts { entries: Vec::new() }
    }

    /// Counts one file whose tag has `value`.
    pub fn add(&mut self, value: String)
        requires
            old(self).wf(),
        ensures
            final(self).wf(),
            forall|i: int|
                0 <= i < old(self)@.len() && (#[trigger] old(self)@[i]).0 == value@ ==> final(self)@
                    == old(self)@.update(i, (value@, incremented(old(self)@[i].1))),
            (forall|i: int| 0 <= i < old(self)@.len() ==> (#[trigger] old(self)@[i]).0 != value@)
                ==> final(self)@ == old(self)@.push((value@, 1u64)),
    {
        let mut i: usize = 0;
        while i < self.entries.len()
            invariant
                self.wf(),
                *self == *old(self),
                i <= self@.len(),
                forall|k: int| 0 <= k < i ==> (#[trigger] self@[k]).0 != value@,
            decreases self@.len() - i,
        {
            if text_eq(self.entries[i].value.as_str(), value.as_str()) {
                let old_count = self.entries[i].count;
                let new_count = if old_count < u64::MAX {
                    old_count + 1
                } else {
                    old_count
                };
                let ghost before = self@;
                self.entries.set(i, TagCount { value, count: new_count });
                assert(self@ =~= before.update(i as int, (before[i as int].0, new_count)));
                return;
            }
            i = i + 1;
        }
        let ghost before = self@;
        self.entries.push(TagCount { value, count: 1 });
        assert(self@ =~= before.push((value@, 1u64)));
    }

    /// Number of distinct values counted.
    pub fn len(&self) -> (r: usize)
        ensures
            r == self@.len(),
    {
        self.entries.len()
    }

    /// The count of `value`, if it was seen.
    pub fn get(&self, value: &str) -> (r: Option<u64>)
        requires
            self.wf(),
        ensures
            r matches Some(n) ==> exists|i: int|
                0 <= i < self@.len() && #[trigger] self@[i] == (value@, n),
            r is None ==> forall|i: int| 0 <= i < self@.len() ==> (#[trigger] self@[i]).0 != value@,
    {
        let mut i: usize = 0;
        while i < self.entries.len()
            invariant
                i <= self@.len(),
                forall|k: int| 0 <= k < i ==> (#[trigger] self@[k]).0 != value@,
            decreases self@.len() - i,
        {
            if text_eq(self.entries[i].value.as_str(), value) {
                assert(self@[i as int] == (value@, self.entries@[i as int].count));
                return Some(self.entries[i].count);
            }
            i = i + 1;
        }
        None
    }
}

/// Paths of the files whose tag has a given value, in order of sight.
#[derive(Clone, Debug)]
pub struct TagFilter {
    pub value: String,
    pub paths: Vec<String>,
}

impl TagFilter {
    pub fn new(value: String) -> (r: TagFilter)
        ensures
            r.value@ == value@,
            r.paths@.len() == 0,
    {
        TagFilter { value, paths: Vec::new() }
    }

    /// Keeps `path` when the file's tag, `metadata`, is the value filtered on.
    pub fn add(&mut self, metadata: &str, path: String)
        ensures
            final(self).value == old(self).value,
            metadata@ == old(self).value@ ==> final(self).paths@ == old(self).paths@.push(path),
            metadata@ != old(self).value@ ==> final(self).paths@ == old(self).paths@,
    {
        if text_eq(metadata, self.value.as_str()) {
            self.paths.push(path);
        }
    }
}

} // verus!
