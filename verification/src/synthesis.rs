//! The record of one constraint synthesis: which namespaces were entered, in order.
use vstd::prelude::*;
use vstd::string::*;

verus! {

/// One synthesis run. It knows whether every allocated variable must come with
/// a value, keeps the namespace labels under which constraints were emitted, in
/// the order of emission, and knows whether the known values meet every
/// constraint enforced so far.
pub struct Synthesis {
    witnessed: bool,
    satisfied: bool,
    namespaces: Vec<String>,
}

/// The texts of a list of labels.
pub open spec fn label_texts(labels: Seq<String>) -> Seq<Seq<char>> {
    Seq::new(labels.len(), |i: int| labels[i]@)
}

/// Adding a label keeps the labels distinct exactly where they were distinct
/// and the label is new.
pub proof fn lemma_distinct_after_push(labels: Seq<Seq<char>>, label: Seq<char>)
    ensures
        labels.push(label).no_duplicates() == (labels.no_duplicates() && !labels.contains(label)),
{
    let more = labels.push(label);
    if labels.no_duplicates() && !labels.contains(label) {
        assert forall|i: int, j: int| 0 <= i < more.len() && 0 <= j < more.len() && i != j implies more[i]
            != more[j] by {
            if i < labels.len() && j < labels.len() {
                assert(more[i] == labels[i] && more[j] == labels[j]);
            } else if i < labels.len() {
                assert(labels.contains(labels[i]));
            } else {
                assert(labels.contains(labels[j]));
            }
        }
    } else if !labels.no_duplicates() {
        let (i, j) = choose|i: int, j: int|
            0 <= i < labels.len() && 0 <= j < labels.len() && i != j && labels[i] == labels[j];
        assert(more[i] == more[j]);
    } else {
        let i = choose|i: int| 0 <= i < labels.len() && labels[i] == label;
        assert(more[i] == more[labels.len() as int]);
    }
}

impl Synthesis {
    /// True if every allocated variable must come with a value.
    pub closed spec fn witnessed(&self) -> bool {
        self.witnessed
    }

    /// True if the known values meet every constraint enforced so far.
    pub closed spec fn satisfied(&self) -> bool {
        self.satisfied
    }

    /// The namespace labels entered so far, oldest first.
    pub closed spec fn labels(&self) -> Seq<Seq<char>> {
        label_texts(self.namespaces@)
    }

    /// True if no namespace was entered twice.
    pub open spec fn collision_free(&self) -> bool {
        self.labels().no_duplicates()
    }

    /// A synthesis with no namespace entered yet.
    pub fn new(witnessed: bool) -> (r: Synthesis)
        ensures
            r.witnessed() == witnessed,
            r.satisfied(),
            r.labels() == Seq::<Seq<char>>::empty(),
    {
        let namespaces: Vec<String> = Vec::new();
        assert(label_texts(namespaces@) =~= Seq::<Seq<char>>::empty());
        Synthesis { witnessed, satisfied: true, namespaces }
    }

    pub fn is_witnessed(&self) -> (r: bool)
        ensures
            r == self.witnessed(),
    {
        self.witnessed
    }

    pub fn is_satisfied(&self) -> (r: bool)
        ensures
            r == self.satisfied(),
    {
        self.satisfied
    }

    /// True if no namespace was entered twice.
    pub fn is_collision_free(&self) -> (r: bool)
        ensures
            r == self.collision_free(),
    {
        let ghost texts = label_texts(self.namespaces@);
        let mut i: usize = 0;
        while i < self.namespaces.len()
            invariant
                i <= self.namespaces.len(),
                texts == label_texts(self.namespaces@),
                forall|a: int, b: int| 0 <= a < b < i ==> texts[a] != texts[b],
            decreases self.namespaces.len() - i,
        {
            let mut j: usize = 0;
            while j < i
                invariant
                    j <= i < self.namespaces.len(),
                    texts == label_texts(self.namespaces@),
                    forall|a: int| 0 <= a < j ==> texts[a] != texts[i as int],
                decreases i - j,
            {
                if self.namespaces[j] == self.namespaces[i] {
                    assert(texts[j as int] == texts[i as int]);
                    return false;
                }
                j = j + 1;
            }
            i = i + 1;
        }
        assert forall|a: int, b: int| 0 <= a < texts.len() && 0 <= b < texts.len() && a
            != b implies texts[a] != texts[b] by {
            if a < b {
            } else {
                assert(texts[b] != texts[a]);
            }
        }
        true
    }

    /// True if the namespace `label` was entered already.
    pub fn has_entered(&self, label: &str) -> (r: bool)
        ensures
            r == self.labels().contains(label@),
    {
        let wanted = String::from_str(label);
        self.holds(&wanted)
    }

    /// True if the namespace `label` was entered already.
    fn holds(&self, label: &String) -> (r: bool)
        ensures
            r == self.labels().contains(label@),
    {
        let mut i: usize = 0;
        while i < self.namespaces.len()
            invariant
                i <= self.namespaces.len(),
                forall|j: int| 0 <= j < i ==> label_texts(self.namespaces@)[j] != label@,
            decreases self.namespaces.len() - i,
        {
            if self.namespaces[i] == *label {
                assert(label_texts(self.namespaces@)[i as int] == label@);
                return true;
            }
            i = i + 1;
        }
        false
    }

    /// Records that a constraint was enforced; `holds` says whether the known
    /// values meet it.
    pub fn enforce(&mut self, holds: bool)
        ensures
            final(self).witnessed() == old(self).witnessed(),
            final(self).labels() == old(self).labels(),
            final(self).satisfied() == (old(self).satisfied() && holds),
    {
        self.satisfied = self.satisfied && holds;
    }

    /// Enters the namespace `label`. The synthesis stays free of collisions
    /// where it was and the label was not entered before.
    pub fn enter(&mut self, label: String)
        ensures
            final(self).witnessed() == old(self).witnessed(),
            final(self).satisfied() == old(self).satisfied(),
            final(self).labels() == old(self).labels().push(label@),
            final(self).collision_free() == (old(self).collision_free()
                && !old(self).labels().contains(label@)),
    {
        proof {
            lemma_distinct_after_push(self.labels(), label@);
        }
        let ghost before = label_texts(self.namespaces@);
        self.namespaces.push(label);
        assert(label_texts(self.namespaces@) =~= before.push(label@));
    }

    /// The number of namespaces entered so far.
    pub fn len(&self) -> (r: usize)
        ensures
            r == self.labels().len(),
    {
        self.namespaces.len()
    }

    /// The label of the namespace entered as the `index`-th.
    pub fn label(&self, index: usize) -> (r: &String)
        requires
            index < self.labels().len(),
        ensures
            r@ == self.labels()[index as int],
    {
        &self.namespaces[index]
    }
}

} // verus!
