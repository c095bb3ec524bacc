//! The survey registry: an append-only list of uniquely titled surveys
//! whose serialized form must fit a fixed storage budget.

use crate::types::Survey;
use vstd::prelude::*;
use vstd::utf8::encode_utf8;

verus! {

/// The registry record.
#[derive(Clone, Debug, PartialEq, Eq)]
pub struct SurveyRegistry {
    pub surveys: Vec<Survey>,
}

impl SurveyRegistry {
    /// Storage budget, in bytes, of the serialized registry.
    pub const MAX_SIZE: usize = 8_000;
}

/// Some stored survey has exactly this title.
pub open spec fn has_title(surveys: Seq<Survey>, title: Seq<char>) -> bool {
    exists|i: int| 0 <= i < surveys.len() && (#[trigger] surveys[i]).title@ == title
}

/// No two stored surveys share a title.
pub open spec fn titles_distinct(surveys: Seq<Survey>) -> bool {
    forall|i: int, j: int|
        0 <= i < surveys.len() && 0 <= j < surveys.len() && i != j ==> (#[trigger] surveys[i]).title@
            != (#[trigger] surveys[j]).title@
}

/// Serialized size of one survey with this title: a length prefix, the
/// UTF-8 bytes of the title, the creator's key and the timestamp.
pub open spec fn survey_bytes(title: Seq<char>) -> int {
    4 + encode_utf8(title).len() as int + 32 + 8
}

/// Serialized size of a registry holding `surveys`: a length prefix and
/// each survey in turn.
pub open spec fn registry_bytes(surveys: Seq<Survey>) -> int
    decreases surveys.len(),
{
    if surveys.len() == 0 {
        4
    } else {
        registry_bytes(surveys.drop_last()) + survey_bytes(surveys.last().title@)
    }
}

/// A registry holding `surveys` and then one survey titled `title` still
/// fits the storage budget.
pub open spec fn fits_with(surveys: Seq<Survey>, title: Seq<char>) -> bool {
    registry_bytes(surveys) + survey_bytes(title) <= SurveyRegistry::MAX_SIZE
}

proof fn lemma_registry_bytes_grow(surveys: Seq<Survey>, i: int)
    requires
        0 <= i <= surveys.len(),
    ensures
        registry_bytes(surveys.subrange(0, i)) <= registry_bytes(surveys),
    decreases surveys.len() - i,
{
    if i < surveys.len() {
        lemma_registry_bytes_grow(surveys, i + 1);
        assert(surveys.subrange(0, i + 1).drop_last() =~= surveys.subrange(0, i));
    } else {
        assert(surveys.subrange(0, i) =~= surveys);
    }
}

impl SurveyRegistry {
    /// An empty registry.
    pub fn new() -> (r: SurveyRegistry)
        ensures
            r.surveys@ == Seq::<Survey>::empty(),
    {
        SurveyRegistry { surveys: Vec::new() }
    }

    /// Number of stored surveys.
    pub fn len(&self) -> (r: usize)
        ensures
            r == self.surveys@.len(),
    {
        self.surveys.len()
    }

    /// Whether a stored survey has exactly the title `title`
    /// (case-sensitive).
    pub fn contains_title(&self, title: &String) -> (r: bool)
        ensures
            r == has_title(self.surveys@, title@),
    {
        let n = self.surveys.len();
        let mut i: usize = 0;
        while i < n
            invariant
                n == self.surveys@.len(),
                0 <= i <= n,
                forall|k: int| 0 <= k < i ==> (#[trigger] self.surveys@[k]).title@ != title@,
            decreases n - i,
        {
            if self.surveys[i].title == *title {
                assert(self.surveys@[i as int].title@ == title@);
                return true;
            }
            i = i + 1;
        }
        false
    }

    /// Whether one more survey titled `title` would still let the
    /// registry fit its storage budget.
    pub fn fits_with(&self, title: &String) -> (r: bool)
        ensures
            r == fits_with(self.surveys@, title@),
    {
        let n = self.surveys.len();
        let mut used: usize = 4;
        let mut i: usize = 0;
        while i < n
            invariant
                n == self.surveys@.len(),
                0 <= i <= n,
                used as int == registry_bytes(self.surveys@.subrange(0, i as int)),
                used <= SurveyRegistry::MAX_SIZE,
            decreases n - i,
        {
            proof {
                assert(self.surveys@.subrange(0, i + 1).drop_last() =~= self.surveys@.subrange(
                    0,
                    i as int,
                ));
            }
            let t = self.surveys[i].title.as_str();
            let len = t.as_bytes().len();
            if len > SurveyRegistry::MAX_SIZE || used + len + 44 > SurveyRegistry::MAX_SIZE {
                proof {
                    lemma_registry_bytes_grow(self.surveys@, i + 1);
                }
                return false;
            }
            used = used + len + 44;
            i = i + 1;
        }
        proof {
            assert(self.surveys@.subrange(0, n as int) =~= self.surveys@);
        }
        let t = title.as_str();
        let len = t.as_bytes().len();
        len <= SurveyRegistry::MAX_SIZE && used + len + 44 <= SurveyRegistry::MAX_SIZE
    }
}

} // verus!
