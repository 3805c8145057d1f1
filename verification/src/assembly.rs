//! Helpers for building assembly: an append-only buffer of concrete and
//! symbolic instructions. Jumps reference labels rather than offsets, so the
//! compiler can emit forward jumps before their target's offset is known; an
//! external resolver later rewrites every symbolic jump using the
//! label-to-offset map. Calls referenced by hash are collected with their
//! call-site spans for link-time verification.
//!
//! The maps are kept as key-ordered-by-insertion association vectors; every
//! method maintains that their keys stay distinct.

use vstd::prelude::*;
use crate::inst::{FnHash, Inst};
use crate::span::Span;

verus! {

/// A label that can be jumped to: a human-readable tag and a discriminator
/// that is unique among the labels an [`Assembly`] hands out. Labels are
/// identified by their discriminator; the tag is only for diagnostics.
#[derive(Debug, Clone, Copy)]
pub struct Label {
    /// The human-readable tag.
    pub name: &'static str,
    /// The unique discriminator.
    pub ident: usize,
}

/// One entry of the instruction buffer: either a symbolic jump, still
/// referencing a label, or a concrete instruction.
#[derive(Debug, Clone, Copy)]
pub enum AssemblyInst {
    /// An unconditional jump to a label.
    Jump {
        /// The target.
        label: Label,
    },
    /// A jump taken when the popped condition is true.
    JumpIf {
        /// The target.
        label: Label,
    },
    /// A jump taken when the popped condition is false.
    JumpIfNot {
        /// The target.
        label: Label,
    },
    /// A jump taken when the matched branch equals `branch`.
    JumpIfBranch {
        /// The branch value compared against.
        branch: i64,
        /// The target.
        label: Label,
    },
    /// Pop `count` values, then jump if the condition is true.
    PopAndJumpIf {
        /// How many values to pop.
        count: usize,
        /// The target.
        label: Label,
    },
    /// Pop `count` values, then jump if the condition is false.
    PopAndJumpIfNot {
        /// How many values to pop.
        count: usize,
        /// The target.
        label: Label,
    },
    /// A concrete instruction.
    Raw {
        /// The instruction.
        raw: Inst,
    },
}

/// A failure while building assembly.
#[derive(Debug, Clone, Copy)]
pub enum UnitError {
    /// The label was already placed at an offset; a label may be placed at
    /// most once.
    DuplicateLabel {
        /// The label whose second placement was refused.
        label: Label,
    },
}

/// The offset a placed label is bound to, by its discriminator.
pub open spec fn label_lookup(s: Seq<(Label, usize)>, ident: usize) -> Option<usize>
    decreases s.len(),
{
    if s.len() == 0 {
        None
    } else if s[0].0.ident == ident {
        Some(s[0].1)
    } else {
        label_lookup(s.drop_first(), ident)
    }
}

/// No two placed labels share a discriminator.
pub open spec fn labels_unique(s: Seq<(Label, usize)>) -> bool {
    forall|i: int, j: int|
        0 <= i < j < s.len() ==> (#[trigger] s[i]).0.ident != (#[trigger] s[j]).0.ident
}

/// The label registered at an offset.
pub open spec fn rev_lookup(s: Seq<(usize, Label)>, offset: usize) -> Option<Label>
    decreases s.len(),
{
    if s.len() == 0 {
        None
    } else if s[0].0 == offset {
        Some(s[0].1)
    } else {
        rev_lookup(s.drop_first(), offset)
    }
}

/// No two reverse entries share an offset.
pub open spec fn rev_unique(s: Seq<(usize, Label)>) -> bool {
    forall|i: int, j: int| 0 <= i < j < s.len() ==> (#[trigger] s[i]).0 != (#[trigger] s[j]).0
}

/// Register `label` at `offset`: replace the entry holding that offset, or
/// add one. A second registration at an occupied offset wins over the first.
pub open spec fn rev_insert(s: Seq<(usize, Label)>, offset: usize, label: Label) -> Seq<
    (usize, Label),
>
    decreases s.len(),
{
    if s.len() == 0 {
        seq![(offset, label)]
    } else if s[0].0 == offset {
        seq![(offset, label)] + s.drop_first()
    } else {
        seq![s[0]] + rev_insert(s.drop_first(), offset, label)
    }
}

/// The view of the required-function collection: each function hash with the
/// spans of the call sites that reference it, in push order.
pub open spec fn req_view(s: Seq<(FnHash, Vec<Span>)>) -> Seq<(FnHash, Seq<Span>)> {
    s.map_values(|p: (FnHash, Vec<Span>)| (p.0, p.1@))
}

/// The call-site spans recorded under a function hash, if any.
pub open spec fn req_lookup(s: Seq<(FnHash, Seq<Span>)>, hash: FnHash) -> Option<Seq<Span>>
    decreases s.len(),
{
    if s.len() == 0 {
        None
    } else if s[0].0 == hash {
        Some(s[0].1)
    } else {
        req_lookup(s.drop_first(), hash)
    }
}

/// The call-site spans recorded under a function hash; none when the hash was
/// never referenced.
pub open spec fn req_spans(s: Seq<(FnHash, Seq<Span>)>, hash: FnHash) -> Seq<Span> {
    match req_lookup(s, hash) {
        Some(spans) => spans,
        None => Seq::empty(),
    }
}

/// No two required-function entries share a hash.
pub open spec fn req_unique(s: Seq<(FnHash, Seq<Span>)>) -> bool {
    forall|i: int, j: int| 0 <= i < j < s.len() ==> (#[trigger] s[i]).0 != (#[trigger] s[j]).0
}

/// Record one call site: append its span to the entry of its hash, or open a
/// new entry when the hash was never referenced before.
pub open spec fn record_requirement(
    s: Seq<(FnHash, Seq<Span>)>,
    hash: FnHash,
    span: Span,
) -> Seq<(FnHash, Seq<Span>)>
    decreases s.len(),
{
    if s.len() == 0 {
        seq![(hash, seq![span])]
    } else if s[0].0 == hash {
        seq![(hash, s[0].1.push(span))] + s.drop_first()
    } else {
        seq![s[0]] + record_requirement(s.drop_first(), hash, span)
    }
}

/// The view of the comment collection: each annotated offset with its
/// annotations.
pub open spec fn comments_view(s: Seq<(usize, Vec<String>)>) -> Seq<(usize, Seq<Seq<char>>)> {
    s.map_values(|p: (usize, Vec<String>)| (p.0, p.1.deep_view()))
}

/// Helper structure to build instructions and maintain the label and linking
/// invariants.
#[derive(Debug, Clone)]
pub struct Assembly {
    /// Placed labels: label to instruction offset.
    pub labels: Vec<(Label, usize)>,
    /// Registered label by offset; where several labels were placed at one
    /// offset, the last placed.
    pub labels_rev: Vec<(usize, Label)>,
    /// Instructions with their spans.
    pub instructions: Vec<(AssemblyInst, Span)>,
    /// Comments associated with instruction offsets.
    pub comments: Vec<(usize, Vec<String>)>,
    /// The number of labels handed out.
    pub label_count: usize,
    /// The functions required by this assembly, with their call-site spans.
    pub required_functions: Vec<(FnHash, Vec<Span>)>,
}

impl Assembly {
    /// The buffer's invariant: all map keys distinct, every reverse entry
    /// registered at the offset its label is placed at, every placed label's
    /// offset registered, offsets within the instruction stream, and comments
    /// attached only to offsets already written.
    pub open spec fn wf(self) -> bool {
        &&& labels_unique(self.labels@)
        &&& rev_unique(self.labels_rev@)
        &&& req_unique(req_view(self.required_functions@))
        &&& forall|i: int, j: int|
            0 <= i < j < self.comments@.len() ==> (#[trigger] self.comments@[i]).0 != (
            #[trigger] self.comments@[j]).0
        &&& forall|i: int|
            0 <= i < self.comments@.len() ==> (#[trigger] self.comments@[i]).0
                < self.instructions@.len()
        &&& forall|i: int|
            0 <= i < self.labels@.len() ==> (#[trigger] self.labels@[i]).1
                <= self.instructions@.len()
        &&& forall|o: usize|
            (#[trigger] rev_lookup(self.labels_rev@, o)) matches Some(l) ==> label_lookup(
                self.labels@,
                l.ident,
            ) == Some(o)
        &&& forall|i: int|
            0 <= i < self.labels@.len() ==> rev_lookup(
                self.labels_rev@,
                (#[trigger] self.labels@[i]).1,
            ) is Some
    }

    /// Construct a new assembly whose label discriminators continue from
    /// `label_count`.
    pub fn new(label_count: usize) -> (r: Assembly)
        ensures
            r.labels@ == Seq::<(Label, usize)>::empty(),
            r.labels_rev@ == Seq::<(usize, Label)>::empty(),
            r.instructions@ == Seq::<(AssemblyInst, Span)>::empty(),
            r.comments@ == Seq::<(usize, Vec<String>)>::empty(),
            r.label_count == label_count,
            r.required_functions@ == Seq::<(FnHash, Vec<Span>)>::empty(),
            r.wf(),
    {
        Assembly {
            labels: Vec::new(),
            labels_rev: Vec::new(),
            instructions: Vec::new(),
            comments: Vec::new(),
            label_count,
            required_functions: Vec::new(),
        }
    }

    /// Construct and return a new label, never handed out before by this
    /// assembly.
    pub fn new_label(&mut self, name: &'static str) -> (r: Label)
        requires
            old(self).label_count < usize::MAX,
        ensures
            r == (Label { name, ident: old(self).label_count }),
            final(self).label_count == old(self).label_count + 1,
            final(self).labels@ == old(self).labels@,
            final(self).labels_rev@ == old(self).labels_rev@,
            final(self).instructions@ == old(self).instructions@,
            final(self).comments@ == old(self).comments@,
            final(self).required_functions@ == old(self).required_functions@,
            old(self).wf() ==> final(self).wf(),
    {
        let label = Label { name, ident: self.label_count };
        self.label_count = self.label_count + 1;
        label
    }

    /// Whether a label with this label's discriminator was already placed.
    fn label_placed(&self, label: Label) -> (r: bool)
        ensures
            r == (label_lookup(self.labels@, label.ident) is Some),
            r ==> label_lookup(self.labels@, label.ident) is Some,
            !r ==> forall|j: int|
                0 <= j < self.labels@.len() ==> (#[trigger] self.labels@[j]).0.ident
                    != label.ident,
    {
        let n = self.labels.len();
        let mut i: usize = 0;
        while i < n
            invariant
                n == self.labels@.len(),
                i <= n,
                forall|j: int|
                    0 <= j < i ==> (#[trigger] self.labels@[j]).0.ident != label.ident,
            decreases n - i,
        {
            if self.labels[i].0.ident == label.ident {
                proof {
                    lemma_label_lookup_at(self.labels@, label.ident, i as int);
                }
                return true;
            }
            i = i + 1;
        }
        proof {
            lemma_label_lookup_none(self.labels@, label.ident);
        }
        false
    }

    /// Register `label` at `offset` in the reverse map, replacing whatever
    /// label was registered there before.
    fn rev_place(&mut self, offset: usize, label: Label)
        ensures
            final(self).labels_rev@ == rev_insert(old(self).labels_rev@, offset, label),
            final(self).labels@ == old(self).labels@,
            final(self).instructions@ == old(self).instructions@,
            final(self).comments@ == old(self).comments@,
            final(self).label_count == old(self).label_count,
            final(self).required_functions@ == old(self).required_functions@,
    {
        let ghost s = self.labels_rev@;
        let n = self.labels_rev.len();
        let mut i: usize = 0;
        while i < n
            invariant
                self.labels@ == old(self).labels@,
                self.instructions@ == old(self).instructions@,
                self.comments@ == old(self).comments@,
                self.label_count == old(self).label_count,
                self.required_functions@ == old(self).required_functions@,
                s == old(self).labels_rev@,
                s == self.labels_rev@,
                n == s.len(),
                i <= n,
                forall|j: int| 0 <= j < i ==> (#[trigger] s[j]).0 != offset,
            decreases n - i,
        {
            if self.labels_rev[i].0 == offset {
                let _ = self.labels_rev.remove(i);
                self.labels_rev.insert(i, (offset, label));
                proof {
                    lemma_rev_insert_at(s, i as int, offset, label);
                    assert(self.labels_rev@ =~= s.update(i as int, (offset, label)));
                }
                return ;
            }
            i = i + 1;
        }
        self.labels_rev.push((offset, label));
        proof {
            lemma_rev_insert_absent(s, offset, label);
        }
    }

    /// Apply the label at the current instruction offset. A label may be
    /// placed at most once: a second placement fails with a duplicate-label
    /// error and changes nothing. Two distinct labels may share an offset;
    /// the reverse map then keeps the one placed last.
    pub fn label(&mut self, label: Label) -> (r: Result<Label, UnitError>)
        requires
            old(self).wf(),
        ensures
            final(self).wf(),
            final(self).instructions@ == old(self).instructions@,
            final(self).comments@ == old(self).comments@,
            final(self).label_count == old(self).label_count,
            final(self).required_functions@ == old(self).required_functions@,
            match r {
                Ok(l) => {
                    &&& l == label
                    &&& label_lookup(old(self).labels@, label.ident) is None
                    &&& final(self).labels@ == old(self).labels@.push(
                        (label, old(self).instructions@.len() as usize),
                    )
                    &&& final(self).labels_rev@ == rev_insert(
                        old(self).labels_rev@,
                        old(self).instructions@.len() as usize,
                        label,
                    )
                    &&& label_lookup(final(self).labels@, label.ident) == Some(
                        old(self).instructions@.len() as usize,
                    )
                    &&& rev_lookup(
                        final(self).labels_rev@,
                        old(self).instructions@.len() as usize,
                    ) == Some(label)
                },
                Err(e) => {
                    &&& e matches UnitError::DuplicateLabel { label: l } && l == label
                    &&& label_lookup(old(self).labels@, label.ident) is Some
                    &&& final(self).labels@ == old(self).labels@
                    &&& final(self).labels_rev@ == old(self).labels_rev@
                },
            },
    {
        let offset = self.instructions.len();
        if self.label_placed(label) {
            return Err(UnitError::DuplicateLabel { label });
        }
        self.labels.push((label, offset));
        self.rev_place(offset, label);
        proof {
            assert forall|id: usize| #[trigger] label_lookup(self.labels@, id) == (
                if label_lookup(old(self).labels@, id) is Some {
                    label_lookup(old(self).labels@, id)
                } else if label.ident == id {
                    Some(offset)
                } else {
                    None
                }
            ) by {
                lemma_label_lookup_push(old(self).labels@, (label, offset), id);
            }
            assert forall|o: usize| #[trigger] rev_lookup(self.labels_rev@, o) == (
                if o == offset {
                    Some(label)
                } else {
                    rev_lookup(old(self).labels_rev@, o)
                }
            ) by {
                lemma_rev_insert_lookup(old(self).labels_rev@, offset, label, o);
            }
            lemma_rev_insert_unique(old(self).labels_rev@, offset, label);
        }
        Ok(label)
    }

    /// Add an unconditional jump to the given label.
    pub fn jump(&mut self, label: Label, span: Span)
        requires
            old(self).wf(),
        ensures
            final(self).wf(),
            final(self).instructions@ == old(self).instructions@.push(
                (AssemblyInst::Jump { label }, span),
            ),
            bookkeeping_unchanged(*old(self), *final(self)),
    {
        self.instructions.push((AssemblyInst::Jump { label }, span));
    }

    /// Add a jump to the given label, taken when the popped condition is
    /// true.
    pub fn jump_if(&mut self, label: Label, span: Span)
        requires
            old(self).wf(),
        ensures
            final(self).wf(),
            final(self).instructions@ == old(self).instructions@.push(
                (AssemblyInst::JumpIf { label }, span),
            ),
            bookkeeping_unchanged(*old(self), *final(self)),
    {
        self.instructions.push((AssemblyInst::JumpIf { label }, span));
    }

    /// Add a jump to the given label, taken when the popped condition is
    /// false.
    pub fn jump_if_not(&mut self, label: Label, span: Span)
        requires
            old(self).wf(),
        ensures
            final(self).wf(),
            final(self).instructions@ == old(self).instructions@.push(
                (AssemblyInst::JumpIfNot { label }, span),
            ),
            bookkeeping_unchanged(*old(self), *final(self)),
    {
        self.instructions.push((AssemblyInst::JumpIfNot { label }, span));
    }

    /// Add a jump to the given label, taken when the matched branch equals
    /// `branch`.
    pub fn jump_if_branch(&mut self, branch: i64, label: Label, span: Span)
        requires
            old(self).wf(),
        ensures
            final(self).wf(),
            final(self).instructions@ == old(self).instructions@.push(
                (AssemblyInst::JumpIfBranch { branch, label }, span),
            ),
            bookkeeping_unchanged(*old(self), *final(self)),
    {
        self.instructions.push((AssemblyInst::JumpIfBranch { branch, label }, span));
    }

    /// Add a pop-and-jump-if instruction to a label.
    pub fn pop_and_jump_if(&mut self, count: usize, label: Label, span: Span)
        requires
            old(self).wf(),
        ensures
            final(self).wf(),
            final(self).instructions@ == old(self).instructions@.push(
                (AssemblyInst::PopAndJumpIf { count, label }, span),
            ),
            bookkeeping_unchanged(*old(self), *final(self)),
    {
        self.instructions.push((AssemblyInst::PopAndJumpIf { count, label }, span));
    }

    /// Add a pop-and-jump-if-not instruction to a label.
    pub fn pop_and_jump_if_not(&mut self, count: usize, label: Label, span: Span)
        requires
            old(self).wf(),
        ensures
            final(self).wf(),
            final(self).instructions@ == old(self).instructions@.push(
                (AssemblyInst::PopAndJumpIfNot { count, label }, span),
            ),
            bookkeeping_unchanged(*old(self), *final(self)),
    {
        self.instructions.push((AssemblyInst::PopAndJumpIfNot { count, label }, span));
    }

    /// Record the call site of a required function under its hash.
    fn record_required(&mut self, hash: FnHash, span: Span)
        requires
            req_unique(req_view(old(self).required_functions@)),
        ensures
            req_view(final(self).required_functions@) == record_requirement(
                req_view(old(self).required_functions@),
                hash,
                span,
            ),
            req_unique(req_view(final(self).required_functions@)),
            final(self).labels@ == old(self).labels@,
            final(self).labels_rev@ == old(self).labels_rev@,
            final(self).instructions@ == old(self).instructions@,
            final(self).comments@ == old(self).comments@,
            final(self).label_count == old(self).label_count,
    {
        let ghost s = self.required_functions@;
        let ghost v = req_view(s);
        let n = self.required_functions.len();
        let mut i: usize = 0;
        while i < n
            invariant
                self.labels@ == old(self).labels@,
                self.labels_rev@ == old(self).labels_rev@,
                self.instructions@ == old(self).instructions@,
                self.comments@ == old(self).comments@,
                self.label_count == old(self).label_count,
                s == old(self).required_functions@,
                s == self.required_functions@,
                v == req_view(s),
                req_unique(v),
                n == s.len(),
                i <= n,
                forall|j: int| 0 <= j < i ==> (#[trigger] s[j]).0 != hash,
            decreases n - i,
        {
            if self.required_functions[i].0 == hash {
                let entry = self.required_functions.remove(i);
                let mut spans = entry.1;
                spans.push(span);
                self.required_functions.insert(i, (hash, spans));
                proof {
                    assert forall|j: int| 0 <= j < i as int implies (#[trigger] v[j]).0 != hash by {
                        assert(v[j] == (s[j].0, s[j].1@));
                    }
                    assert(v[i as int] == (s[i as int].0, s[i as int].1@));
                    lemma_record_requirement_at(v, i as int, hash, span);
                    lemma_record_requirement_unique(v, hash, span);
                    assert(self.required_functions@ =~= s.update(i as int, (hash, spans)));
                    assert(req_view(self.required_functions@) =~= v.update(
                        i as int,
                        (hash, v[i as int].1.push(span)),
                    ));
                }
                return ;
            }
            i = i + 1;
        }
        let mut spans: Vec<Span> = Vec::new();
        spans.push(span);
        self.required_functions.push((hash, spans));
        proof {
            assert forall|j: int| 0 <= j < v.len() implies (#[trigger] v[j]).0 != hash by {
                assert(v[j] == (s[j].0, s[j].1@));
            }
            lemma_record_requirement_absent(v, hash, span);
            lemma_record_requirement_unique(v, hash, span);
            assert(req_view(self.required_functions@) =~= v.push((hash, seq![span])));
        }
    }

    /// Push a raw instruction. A call instruction's target hash is recorded
    /// with the call site's span in the required functions, so the linker can
    /// later verify that every statically referenced function resolves.
    pub fn push(&mut self, raw: Inst, span: Span)
        requires
            old(self).wf(),
        ensures
            final(self).wf(),
            final(self).instructions@ == old(self).instructions@.push(
                (AssemblyInst::Raw { raw }, span),
            ),
            final(self).labels@ == old(self).labels@,
            final(self).labels_rev@ == old(self).labels_rev@,
            final(self).comments@ == old(self).comments@,
            final(self).label_count == old(self).label_count,
            match raw {
                Inst::Call { hash, .. } => req_view(final(self).required_functions@)
                    == record_requirement(req_view(old(self).required_functions@), hash, span),
                _ => final(self).required_functions@ == old(self).required_functions@,
            },
    {
        match raw {
            Inst::Call { hash, .. } => {
                self.record_required(hash, span);
            },
            _ => {},
        }
        self.instructions.push((AssemblyInst::Raw { raw }, span));
    }

    /// Push a raw instruction and attach a debug annotation to the offset
    /// about to be written, so the annotation describes the instruction that
    /// follows it.
    pub fn push_with_comment(&mut self, raw: Inst, span: Span, comment: &str)
        requires
            old(self).wf(),
        ensures
            final(self).wf(),
            final(self).instructions@ == old(self).instructions@.push(
                (AssemblyInst::Raw { raw }, span),
            ),
            final(self).labels@ == old(self).labels@,
            final(self).labels_rev@ == old(self).labels_rev@,
            final(self).label_count == old(self).label_count,
            comments_view(final(self).comments@) == comments_view(old(self).comments@).push(
                (old(self).instructions@.len() as usize, seq![comment@]),
            ),
            match raw {
                Inst::Call { hash, .. } => req_view(final(self).required_functions@)
                    == record_requirement(req_view(old(self).required_functions@), hash, span),
                _ => final(self).required_functions@ == old(self).required_functions@,
            },
    {
        let pos = self.instructions.len();
        self.push(raw, span);
        let mut texts: Vec<String> = Vec::new();
        texts.push(comment.to_owned());
        self.comments.push((pos, texts));
        proof {
            assert(texts.deep_view() =~= seq![comment@]) by {
                assert(texts.deep_view().len() == 1);
                assert(texts.deep_view()[0] == texts@[0].deep_view());
                assert(texts@[0]@ == comment@);
            }
            assert(comments_view(self.comments@) =~= comments_view(old(self).comments@).push(
                (pos, seq![comment@]),
            ));
        }
    }
}

/// Everything but the instruction stream is unchanged.
pub open spec fn bookkeeping_unchanged(pre: Assembly, post: Assembly) -> bool {
    &&& post.labels@ == pre.labels@
    &&& post.labels_rev@ == pre.labels_rev@
    &&& post.comments@ == pre.comments@
    &&& post.label_count == pre.label_count
    &&& post.required_functions@ == pre.required_functions@
}

proof fn lemma_label_lookup_at(s: Seq<(Label, usize)>, ident: usize, i: int)
    requires
        0 <= i < s.len(),
        s[i].0.ident == ident,
        forall|j: int| 0 <= j < i ==> (#[trigger] s[j]).0.ident != ident,
    ensures
        label_lookup(s, ident) == Some(s[i].1),
    decreases i,
{
    if i > 0 {
        assert forall|j: int| 0 <= j < i - 1 implies (#[trigger] s.drop_first()[j]).0.ident
            != ident by {
            assert(s.drop_first()[j] == s[j + 1]);
        }
        lemma_label_lookup_at(s.drop_first(), ident, i - 1);
    }
}

proof fn lemma_label_lookup_none(s: Seq<(Label, usize)>, ident: usize)
    requires
        forall|j: int| 0 <= j < s.len() ==> (#[trigger] s[j]).0.ident != ident,
    ensures
        label_lookup(s, ident) is None,
    decreases s.len(),
{
    if s.len() > 0 {
        lemma_label_lookup_none(s.drop_first(), ident);
    }
}

proof fn lemma_label_lookup_push(s: Seq<(Label, usize)>, p: (Label, usize), ident: usize)
    ensures
        label_lookup(s.push(p), ident) == (if label_lookup(s, ident) is Some {
            label_lookup(s, ident)
        } else if p.0.ident == ident {
            Some(p.1)
        } else {
            None::<usize>
        }),
    decreases s.len(),
{
    if s.len() == 0 {
        assert(s.push(p)[0] == p);
        assert(s.push(p).drop_first() =~= Seq::<(Label, usize)>::empty());
        assert(label_lookup(s.push(p).drop_first(), ident) is None);
        assert(label_lookup(s, ident) is None);
    } else {
        assert(s.push(p)[0] == s[0]);
        assert(s.push(p).drop_first() =~= s.drop_first().push(p));
        lemma_label_lookup_push(s.drop_first(), p, ident);
        if s[0].0.ident == ident {
            assert(label_lookup(s, ident) == Some(s[0].1));
            assert(label_lookup(s.push(p), ident) == Some(s[0].1));
        } else {
            assert(label_lookup(s, ident) == label_lookup(s.drop_first(), ident));
            assert(label_lookup(s.push(p), ident) == label_lookup(
                s.drop_first().push(p),
                ident,
            ));
        }
    }
}

proof fn lemma_rev_insert_at(s: Seq<(usize, Label)>, i: int, offset: usize, label: Label)
    requires
        0 <= i < s.len(),
        s[i].0 == offset,
        forall|j: int| 0 <= j < i ==> (#[trigger] s[j]).0 != offset,
    ensures
        rev_insert(s, offset, label) == s.update(i, (offset, label)),
    decreases i,
{
    if i == 0 {
        assert(rev_insert(s, offset, label) =~= s.update(0, (offset, label)));
    } else {
        assert forall|j: int| 0 <= j < i - 1 implies (#[trigger] s.drop_first()[j]).0 != offset by {
            assert(s.drop_first()[j] == s[j + 1]);
        }
        lemma_rev_insert_at(s.drop_first(), i - 1, offset, label);
        assert(rev_insert(s, offset, label) =~= s.update(i, (offset, label)));
    }
}

proof fn lemma_rev_insert_absent(s: Seq<(usize, Label)>, offset: usize, label: Label)
    requires
        forall|j: int| 0 <= j < s.len() ==> (#[trigger] s[j]).0 != offset,
    ensures
        rev_insert(s, offset, label) == s.push((offset, label)),
    decreases s.len(),
{
    if s.len() == 0 {
        assert(rev_insert(s, offset, label) =~= s.push((offset, label)));
    } else {
        lemma_rev_insert_absent(s.drop_first(), offset, label);
        assert(rev_insert(s, offset, label) =~= s.push((offset, label)));
    }
}

/// Reverse lookup after a registration is deterministic: at the registered
/// offset the registration placed last wins; every other offset is untouched.
pub proof fn lemma_rev_insert_lookup(
    s: Seq<(usize, Label)>,
    offset: usize,
    label: Label,
    other: usize,
)
    ensures
        rev_lookup(rev_insert(s, offset, label), other) == (if other == offset {
            Some(label)
        } else {
            rev_lookup(s, other)
        }),
    decreases s.len(),
{
    if s.len() == 0 {
    } else if s[0].0 == offset {
        assert(rev_insert(s, offset, label).drop_first() =~= s.drop_first());
    } else {
        assert(rev_insert(s, offset, label)[0] == s[0]);
        assert(rev_insert(s, offset, label).drop_first() =~= rev_insert(
            s.drop_first(),
            offset,
            label,
        ));
        lemma_rev_insert_lookup(s.drop_first(), offset, label, other);
    }
}

proof fn lemma_rev_insert_unique(s: Seq<(usize, Label)>, offset: usize, label: Label)
    requires
        rev_unique(s),
    ensures
        rev_unique(rev_insert(s, offset, label)),
    decreases s.len(),
{
    if s.len() == 0 {
    } else if s[0].0 == offset {
        assert forall|i: int, j: int|
            0 <= i < j < rev_insert(s, offset, label).len() implies (#[trigger] rev_insert(
            s,
            offset,
            label,
        )[i]).0 != (#[trigger] rev_insert(s, offset, label)[j]).0 by {
            assert(rev_insert(s, offset, label)[i] == if i == 0 {
                (offset, label)
            } else {
                s[i]
            });
            assert(rev_insert(s, offset, label)[j] == s[j]);
        }
    } else {
        assert forall|i: int, j: int| 0 <= i < j < s.drop_first().len() implies (
        #[trigger] s.drop_first()[i]).0 != (#[trigger] s.drop_first()[j]).0 by {
            assert(s.drop_first()[i] == s[i + 1]);
            assert(s.drop_first()[j] == s[j + 1]);
        }
        lemma_rev_insert_unique(s.drop_first(), offset, label);
        let t = rev_insert(s.drop_first(), offset, label);
        assert forall|i: int, j: int|
            0 <= i < j < rev_insert(s, offset, label).len() implies (#[trigger] rev_insert(
            s,
            offset,
            label,
        )[i]).0 != (#[trigger] rev_insert(s, offset, label)[j]).0 by {
            if i == 0 {
                assert(rev_insert(s, offset, label)[i] == s[0]);
                assert(rev_insert(s, offset, label)[j] == t[j - 1]);
                lemma_rev_insert_entries(s.drop_first(), offset, label, j - 1);
            } else {
                assert(rev_insert(s, offset, label)[i] == t[i - 1]);
                assert(rev_insert(s, offset, label)[j] == t[j - 1]);
            }
        }
    }
}

/// Every entry of a reverse registration either holds the registered offset
/// or comes from the original sequence.
proof fn lemma_rev_insert_entries(s: Seq<(usize, Label)>, offset: usize, label: Label, j: int)
    requires
        0 <= j < rev_insert(s, offset, label).len(),
    ensures
        rev_insert(s, offset, label)[j].0 == offset || (exists|k: int|
            0 <= k < s.len() && (#[trigger] s[k]).0 == rev_insert(s, offset, label)[j].0),
    decreases s.len(),
{
    if s.len() == 0 {
    } else if s[0].0 == offset {
        if j > 0 {
            assert(rev_insert(s, offset, label)[j] == s.drop_first()[j - 1]);
            assert(s.drop_first()[j - 1] == s[j]);
        }
    } else {
        if j > 0 {
            assert(rev_insert(s, offset, label)[j] == rev_insert(
                s.drop_first(),
                offset,
                label,
            )[j - 1]);
            lemma_rev_insert_entries(s.drop_first(), offset, label, j - 1);
            if rev_insert(s.drop_first(), offset, label)[j - 1].0 != offset {
                let k = choose|k: int|
                    0 <= k < s.drop_first().len() && (#[trigger] s.drop_first()[k]).0
                        == rev_insert(s.drop_first(), offset, label)[j - 1].0;
                assert(s[k + 1].0 == rev_insert(s, offset, label)[j].0);
            }
        }
    }
}

proof fn lemma_record_requirement_at(s: Seq<(FnHash, Seq<Span>)>, i: int, hash: FnHash, span: Span)
    requires
        0 <= i < s.len(),
        s[i].0 == hash,
        forall|j: int| 0 <= j < i ==> (#[trigger] s[j]).0 != hash,
    ensures
        record_requirement(s, hash, span) == s.update(i, (hash, s[i].1.push(span))),
    decreases i,
{
    if i == 0 {
        assert(record_requirement(s, hash, span) =~= s.update(0, (hash, s[0].1.push(span))));
    } else {
        assert forall|j: int| 0 <= j < i - 1 implies (#[trigger] s.drop_first()[j]).0 != hash by {
            assert(s.drop_first()[j] == s[j + 1]);
        }
        lemma_record_requirement_at(s.drop_first(), i - 1, hash, span);
        assert(record_requirement(s, hash, span) =~= s.update(i, (hash, s[i].1.push(span))));
    }
}

proof fn lemma_record_requirement_absent(s: Seq<(FnHash, Seq<Span>)>, hash: FnHash, span: Span)
    requires
        forall|j: int| 0 <= j < s.len() ==> (#[trigger] s[j]).0 != hash,
    ensures
        record_requirement(s, hash, span) == s.push((hash, seq![span])),
    decreases s.len(),
{
    if s.len() == 0 {
        assert(record_requirement(s, hash, span) =~= s.push((hash, seq![span])));
    } else {
        lemma_record_requirement_absent(s.drop_first(), hash, span);
        assert(record_requirement(s, hash, span) =~= s.push((hash, seq![span])));
    }
}

/// Recording a call site appends its span to the spans of its hash and
/// leaves every other hash's spans untouched.
pub proof fn lemma_record_requirement_spans(
    s: Seq<(FnHash, Seq<Span>)>,
    hash: FnHash,
    span: Span,
    other: FnHash,
)
    ensures
        req_lookup(record_requirement(s, hash, span), other) == (if other == hash {
            Some(req_spans(s, hash).push(span))
        } else {
            req_lookup(s, other)
        }),
    decreases s.len(),
{
    if s.len() == 0 {
    } else if s[0].0 == hash {
        assert(record_requirement(s, hash, span).drop_first() =~= s.drop_first());
    } else {
        assert(record_requirement(s, hash, span)[0] == s[0]);
        assert(record_requirement(s, hash, span).drop_first() =~= record_requirement(
            s.drop_first(),
            hash,
            span,
        ));
        lemma_record_requirement_spans(s.drop_first(), hash, span, other);
    }
}

/// Recording a call site grows the collection only when its hash was never
/// referenced before.
pub proof fn lemma_record_requirement_len(s: Seq<(FnHash, Seq<Span>)>, hash: FnHash, span: Span)
    ensures
        record_requirement(s, hash, span).len() == (if req_lookup(s, hash) is Some {
            s.len()
        } else {
            s.len() + 1
        }),
    decreases s.len(),
{
    if s.len() == 0 {
    } else if s[0].0 == hash {
    } else {
        lemma_record_requirement_len(s.drop_first(), hash, span);
    }
}

proof fn lemma_record_requirement_unique(s: Seq<(FnHash, Seq<Span>)>, hash: FnHash, span: Span)
    requires
        req_unique(s),
    ensures
        req_unique(record_requirement(s, hash, span)),
    decreases s.len(),
{
    if s.len() == 0 {
    } else if s[0].0 == hash {
        let t = record_requirement(s, hash, span);
        assert forall|i: int, j: int| 0 <= i < j < t.len() implies (#[trigger] t[i]).0 != (
        #[trigger] t[j]).0 by {
            assert(t[i] == if i == 0 {
                (hash, s[0].1.push(span))
            } else {
                s[i]
            });
            assert(t[j] == s[j]);
        }
    } else {
        assert forall|i: int, j: int| 0 <= i < j < s.drop_first().len() implies (
        #[trigger] s.drop_first()[i]).0 != (#[trigger] s.drop_first()[j]).0 by {
            assert(s.drop_first()[i] == s[i + 1]);
            assert(s.drop_first()[j] == s[j + 1]);
        }
        lemma_record_requirement_unique(s.drop_first(), hash, span);
        let t = record_requirement(s, hash, span);
        assert forall|i: int, j: int| 0 <= i < j < t.len() implies (#[trigger] t[i]).0 != (
        #[trigger] t[j]).0 by {
            if i == 0 {
                assert(t[j] == record_requirement(s.drop_first(), hash, span)[j - 1]);
                lemma_record_requirement_entries(s.drop_first(), hash, span, j - 1);
            } else {
                assert(t[i] == record_requirement(s.drop_first(), hash, span)[i - 1]);
                assert(t[j] == record_requirement(s.drop_first(), hash, span)[j - 1]);
            }
        }
    }
}

/// Every entry of a recording either holds the recorded hash or comes from
/// the original sequence.
proof fn lemma_record_requirement_entries(
    s: Seq<(FnHash, Seq<Span>)>,
    hash: FnHash,
    span: Span,
    j: int,
)
    requires
        0 <= j < record_requirement(s, hash, span).len(),
    ensures
        record_requirement(s, hash, span)[j].0 == hash || (exists|k: int|
            0 <= k < s.len() && (#[trigger] s[k]).0 == record_requirement(s, hash, span)[j].0),
    decreases s.len(),
{
    if s.len() == 0 {
    } else if s[0].0 == hash {
        if j > 0 {
            assert(record_requirement(s, hash, span)[j] == s.drop_first()[j - 1]);
            assert(s.drop_first()[j - 1] == s[j]);
        }
    } else {
        if j > 0 {
            assert(record_requirement(s, hash, span)[j] == record_requirement(
                s.drop_first(),
                hash,
                span,
            )[j - 1]);
            lemma_record_requirement_entries(s.drop_first(), hash, span, j - 1);
            if record_requirement(s.drop_first(), hash, span)[j - 1].0 != hash {
                let k = choose|k: int|
                    0 <= k < s.drop_first().len() && (#[trigger] s.drop_first()[k]).0
                        == record_requirement(s.drop_first(), hash, span)[j - 1].0;
                assert(s[k + 1].0 == record_requirement(s, hash, span)[j].0);
            }
        }
    }
}

/// Two call sites of one function, from different spans, accumulate both
/// spans under that function's single entry: its recorded spans grow by
/// exactly those two spans, in order, and the collection gains at most one
/// entry, not two.
pub proof fn lemma_required_function_aggregation(
    s: Seq<(FnHash, Seq<Span>)>,
    hash: FnHash,
    first: Span,
    second: Span,
)
    ensures
        req_spans(record_requirement(record_requirement(s, hash, first), hash, second), hash)
            == req_spans(s, hash).push(first).push(second),
        record_requirement(record_requirement(s, hash, first), hash, second).len() == (
        if req_lookup(s, hash) is Some {
            s.len()
        } else {
            s.len() + 1
        }),
{
    let once = record_requirement(s, hash, first);
    lemma_record_requirement_spans(s, hash, first, hash);
    lemma_record_requirement_spans(once, hash, second, hash);
    lemma_record_requirement_len(s, hash, first);
    lemma_record_requirement_len(once, hash, second);
}

} // verus!
