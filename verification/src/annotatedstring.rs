//! A string with tagged byte ranges over it. The one mutating primitive,
//! range replacement, rewrites a byte span and rebases every annotation so it
//! still denotes the same logical content region, dropping the ones the edit
//! collapsed. The text is held as its UTF-8 bytes, the unit all offsets are
//! counted in.

use vstd::prelude::*;
use vstd::seq_lib::*;
use vstd::string::StrSliceExecFns;
use vstd::string::StringSliceAdditionalSpecFns;

verus! {

/// The closed set of annotation tags.
#[derive(Copy, Clone, Debug, PartialEq, Eq, Structural)]
pub enum AnnotationType {
    SearchMatch,
    SelectedMatch,
}

/// A tagged byte range over one `AnnotatedString`'s text. Annotations do not
/// own text; they are weak references by offset only.
#[derive(Copy, Clone, Debug, PartialEq, Eq, Structural)]
pub struct Annotation {
    pub annotation_type: AnnotationType,
    pub start_byte_idx: usize,
    pub end_byte_idx: usize,
}

/// Where one annotation endpoint moves when the bytes `[s, e)` are replaced
/// by a span whose length differs by `diff`: endpoints at or after the
/// replaced range shift with the edit, endpoints strictly inside it are
/// pulled toward the edit but clamped to stay within `[s, e]`, endpoints
/// before it stay put. `inside` tells whether this endpoint counts position
/// `p` itself as inside the range (the end endpoint does, the start endpoint
/// does not).
pub open spec fn rebased_endpoint(p: int, s: int, e: int, diff: int, shortened: bool, inside_at: int) -> int {
    if p >= e {
        if shortened {
            p - diff
        } else {
            p + diff
        }
    } else if p >= inside_at {
        if shortened {
            if p - diff > s {
                p - diff
            } else {
                s
            }
        } else {
            if p + diff < e {
                p + diff
            } else {
                e
            }
        }
    } else {
        p
    }
}

/// One annotation after both its endpoints are rebased.
pub open spec fn rebased_annotation(a: Annotation, s: int, e: int, diff: int, shortened: bool) -> Annotation {
    Annotation {
        annotation_type: a.annotation_type,
        start_byte_idx: rebased_endpoint(a.start_byte_idx as int, s, e, diff, shortened, s + 1) as usize,
        end_byte_idx: rebased_endpoint(a.end_byte_idx as int, s, e, diff, shortened, s) as usize,
    }
}

/// Whether a rebased annotation survives: a collapsed or out-of-range one is
/// void and is dropped.
pub open spec fn survives(a: Annotation, new_len: int) -> bool {
    a.start_byte_idx < a.end_byte_idx && (a.start_byte_idx as int) < new_len
}

/// Whether annotation `a` covers all of the byte range `[s, e)`.
pub open spec fn covers(a: Annotation, s: int, e: int) -> bool {
    a.start_byte_idx <= s && e <= a.end_byte_idx
}

/// The tags of the annotations of `anns` that cover all of `[s, e)`, in the
/// order the annotations were recorded.
pub open spec fn covering_types(anns: Seq<Annotation>, s: int, e: int) -> Seq<AnnotationType> {
    anns.filter(|a: Annotation| covers(a, s, e)).map_values(|a: Annotation| a.annotation_type)
}

/// One segment of an annotated string, for rendering: its bytes, their range,
/// and the tags active over the whole segment.
#[derive(Debug, PartialEq)]
pub struct AnnotatedPart {
    pub bytes: Vec<u8>,
    pub start_byte_idx: usize,
    pub end_byte_idx: usize,
    pub annotation_types: Vec<AnnotationType>,
}

/// A string together with the set of annotations over it.
#[derive(Debug)]
pub struct AnnotatedString {
    pub bytes: Vec<u8>,
    pub annotations: Vec<Annotation>,
}

impl AnnotatedString {
    /// One annotation whose offsets are valid for a text of `len` bytes.
    pub open spec fn valid_annotation(a: Annotation, len: nat) -> bool {
        a.start_byte_idx < a.end_byte_idx && a.end_byte_idx <= len
    }

    /// Every live annotation's offsets are valid byte indices into the
    /// current text: `0 <= start < end <= len`.
    pub open spec fn annotations_valid(self) -> bool {
        forall|i: int|
            0 <= i < self.annotations@.len() ==> Self::valid_annotation(
                #[trigger] self.annotations@[i],
                self.bytes@.len(),
            )
    }

    /// An annotated string over `string`, with no annotations yet.
    pub fn from(string: &str) -> (r: Self)
        ensures
            r.bytes@ == string.spec_bytes(),
            r.annotations@.len() == 0,
            r.annotations_valid(),
    {
        AnnotatedString { bytes: string.as_bytes_vec(), annotations: Vec::new() }
    }

    /// Records the range `[start_byte_idx, end_byte_idx)` under the given
    /// tag. The range is validated on entry: its end is clamped to the text
    /// length and a range that is void after clamping is not recorded.
    pub fn add_annotation(
        &mut self,
        annotation_type: AnnotationType,
        start_byte_idx: usize,
        end_byte_idx: usize,
    )
        requires
            old(self).annotations_valid(),
            start_byte_idx <= end_byte_idx,
        ensures
            final(self).bytes@ == old(self).bytes@,
            final(self).annotations_valid(),
            ({
                let len = old(self).bytes@.len() as int;
                let e = if end_byte_idx <= len {
                    end_byte_idx as int
                } else {
                    len
                };
                if start_byte_idx < e {
                    final(self).annotations@ == old(self).annotations@.push(
                        Annotation {
                            annotation_type,
                            start_byte_idx,
                            end_byte_idx: e as usize,
                        },
                    )
                } else {
                    final(self).annotations@ == old(self).annotations@
                }
            }),
    {
        let len = self.bytes.len();
        let e = if end_byte_idx <= len {
            end_byte_idx
        } else {
            len
        };
        if start_byte_idx < e {
            self.annotations.push(
                Annotation { annotation_type, start_byte_idx, end_byte_idx: e },
            );
        }
    }

    /// Replaces the bytes `[start_byte_idx, end_byte_idx)` — the end clamped
    /// to the text length — with `new_string`, and rebases every annotation.
    /// A replacement that does not change the length leaves every
    /// annotation's offsets unchanged; otherwise each endpoint moves by the
    /// length difference as `rebased_endpoint` says, and annotations the edit
    /// collapsed are dropped.
    pub fn replace(&mut self, start_byte_idx: usize, end_byte_idx: usize, new_string: &str)
        requires
            old(self).annotations_valid(),
            start_byte_idx <= end_byte_idx,
        ensures
            final(self).annotations_valid(),
            ({
                let old_bytes = old(self).bytes@;
                let old_len = old_bytes.len() as int;
                let s = start_byte_idx as int;
                let e = if end_byte_idx <= old_len {
                    end_byte_idx as int
                } else {
                    old_len
                };
                let ins = new_string.spec_bytes();
                let removed = e - s;
                let shortened = ins.len() < removed;
                let diff = if shortened {
                    removed - ins.len()
                } else {
                    ins.len() - removed
                };
                let new_len = old_len - removed + ins.len();
                if s > e {
                    *final(self) == *old(self)
                } else {
                    &&& final(self).bytes@ == old_bytes.subrange(0, s) + ins + old_bytes.subrange(
                        e,
                        old_len,
                    )
                    &&& diff == 0 ==> final(self).annotations@ == old(self).annotations@
                    &&& diff != 0 ==> final(self).annotations@ == old(self).annotations@
                        .map_values(|a: Annotation| rebased_annotation(a, s, e, diff, shortened))
                        .filter(|a: Annotation| survives(a, new_len))
                }
            }),
    {
        let old_len = self.bytes.len();
        let e = if end_byte_idx <= old_len {
            end_byte_idx
        } else {
            old_len
        };
        if start_byte_idx > e {
            return;
        }

        let ins: &[u8] = new_string.as_bytes();
        let ins_len = ins.len();
        let mut new_bytes: Vec<u8> = Vec::new();
        let mut i: usize = 0;
        while i < start_byte_idx
            invariant
                start_byte_idx <= e <= old_len,
                old_len == self.bytes@.len(),
                i <= start_byte_idx,
                new_bytes@ == self.bytes@.subrange(0, i as int),
            decreases start_byte_idx - i,
        {
            new_bytes.push(self.bytes[i]);
            assert(new_bytes@ =~= self.bytes@.subrange(0, i + 1));
            i += 1;
        }
        let mut j: usize = 0;
        while j < ins_len
            invariant
                ins_len == ins@.len(),
                j <= ins_len,
                new_bytes@ == self.bytes@.subrange(0, start_byte_idx as int) + ins@.subrange(
                    0,
                    j as int,
                ),
                start_byte_idx <= e <= old_len,
                old_len == self.bytes@.len(),
            decreases ins_len - j,
        {
            new_bytes.push(ins[j]);
            assert(new_bytes@ =~= self.bytes@.subrange(0, start_byte_idx as int) + ins@.subrange(
                0,
                j + 1,
            ));
            j += 1;
        }
        let mut k: usize = e;
        while k < old_len
            invariant
                e <= k <= old_len,
                start_byte_idx <= e,
                old_len == self.bytes@.len(),
                new_bytes@ == self.bytes@.subrange(0, start_byte_idx as int) + ins@ + self.bytes@
                    .subrange(e as int, k as int),
            decreases old_len - k,
        {
            new_bytes.push(self.bytes[k]);
            assert(new_bytes@ =~= self.bytes@.subrange(0, start_byte_idx as int) + ins@ + self
                .bytes@.subrange(e as int, k + 1));
            k += 1;
        }
        proof {
            assert(ins@.subrange(0, ins@.len() as int) =~= ins@);
        }
        let ghost old_bytes = self.bytes@;
        self.bytes = new_bytes;

        let replaced_len = e - start_byte_idx;
        let shortened = ins_len < replaced_len;
        let diff = if shortened {
            replaced_len - ins_len
        } else {
            ins_len - replaced_len
        };
        if diff == 0 {
            return;
        }

        let new_len = self.bytes.len();
        let ghost anns = self.annotations@;
        let ghost sp = start_byte_idx as int;
        let ghost ep = e as int;
        let ghost rb = |a: Annotation| rebased_annotation(a, sp, ep, diff as int, shortened);
        let ghost pred = |a: Annotation| survives(a, new_len as int);
        let n_ann = self.annotations.len();
        let mut kept: Vec<Annotation> = Vec::new();
        let mut idx: usize = 0;
        proof {
            reveal(Seq::filter);
            assert(anns.take(0) =~= Seq::<Annotation>::empty());
            assert(Seq::<Annotation>::empty().map_values(rb) =~= Seq::<Annotation>::empty());
            assert(Seq::<Annotation>::empty().filter(pred) =~= Seq::<Annotation>::empty());
        }
        while idx < n_ann
            invariant
                n_ann == anns.len(),
                anns == self.annotations@,
                idx <= n_ann,
                old_len == old_bytes.len(),
                start_byte_idx <= e <= old_len,
                e == ep,
                sp == start_byte_idx as int,
                replaced_len == e - start_byte_idx,
                shortened == (ins_len < replaced_len),
                diff > 0,
                diff == if shortened {
                    replaced_len - ins_len
                } else {
                    ins_len - replaced_len
                },
                new_len == old_len - replaced_len + ins_len,
                rb == (|a: Annotation| rebased_annotation(a, sp, ep, diff as int, shortened)),
                pred == (|a: Annotation| survives(a, new_len as int)),
                forall|t: int|
                    0 <= t < anns.len() ==> Self::valid_annotation(
                        #[trigger] anns[t],
                        old_len as nat,
                    ),
                kept@ == anns.take(idx as int).map_values(rb).filter(pred),
                forall|t: int|
                    0 <= t < kept@.len() ==> Self::valid_annotation(
                        #[trigger] kept@[t],
                        new_len as nat,
                    ),
            decreases n_ann - idx,
        {
            let a = self.annotations[idx];
            let new_start = if a.start_byte_idx >= e {
                if shortened {
                    a.start_byte_idx - diff
                } else {
                    a.start_byte_idx + diff
                }
            } else if a.start_byte_idx > start_byte_idx {
                if shortened {
                    if a.start_byte_idx >= diff && a.start_byte_idx - diff > start_byte_idx {
                        a.start_byte_idx - diff
                    } else {
                        start_byte_idx
                    }
                } else {
                    if a.start_byte_idx + diff < e {
                        a.start_byte_idx + diff
                    } else {
                        e
                    }
                }
            } else {
                a.start_byte_idx
            };
            let new_end = if a.end_byte_idx >= e {
                if shortened {
                    a.end_byte_idx - diff
                } else {
                    a.end_byte_idx + diff
                }
            } else if a.end_byte_idx >= start_byte_idx {
                if shortened {
                    if a.end_byte_idx >= diff && a.end_byte_idx - diff > start_byte_idx {
                        a.end_byte_idx - diff
                    } else {
                        start_byte_idx
                    }
                } else {
                    if a.end_byte_idx + diff < e {
                        a.end_byte_idx + diff
                    } else {
                        e
                    }
                }
            } else {
                a.end_byte_idx
            };
            let rebased = Annotation {
                annotation_type: a.annotation_type,
                start_byte_idx: new_start,
                end_byte_idx: new_end,
            };
            proof {
                assert(rebased == rb(anns[idx as int]));
            }
            if new_start < new_end && new_start < new_len {
                kept.push(rebased);
            }
            proof {
                assert(anns.take(idx + 1) =~= anns.take(idx as int).push(anns[idx as int]));
                assert(anns.take(idx + 1).map_values(rb) =~= anns.take(idx as int).map_values(
                    rb,
                ).push(rb(anns[idx as int])));
                lemma_filter_push(anns.take(idx as int).map_values(rb), rb(anns[idx as int]), pred);
            }
            idx += 1;
        }
        proof {
            assert(anns.take(n_ann as int) =~= anns);
        }
        self.annotations = kept;
    }

    /// Whether byte position `p` is an endpoint of some annotation.
    pub open spec fn is_boundary(self, p: int) -> bool {
        exists|i: int|
            0 <= i < self.annotations@.len() && ((#[trigger] self.annotations@[i]).start_byte_idx
                == p || self.annotations@[i].end_byte_idx == p)
    }

    fn has_boundary_at(&self, p: usize) -> (r: bool)
        ensures
            r == self.is_boundary(p as int),
    {
        let n = self.annotations.len();
        let mut i: usize = 0;
        while i < n
            invariant
                n == self.annotations@.len(),
                i <= n,
                forall|k: int|
                    0 <= k < i ==> (#[trigger] self.annotations@[k]).start_byte_idx != p
                        && self.annotations@[k].end_byte_idx != p,
            decreases n - i,
        {
            let a = self.annotations[i];
            if a.start_byte_idx == p || a.end_byte_idx == p {
                return true;
            }
            i += 1;
        }
        false
    }

    fn covering(&self, s: usize, e: usize) -> (r: Vec<AnnotationType>)
        ensures
            r@ == covering_types(self.annotations@, s as int, e as int),
    {
        let ghost anns = self.annotations@;
        let ghost pred = |a: Annotation| covers(a, s as int, e as int);
        let ghost to_type = |a: Annotation| a.annotation_type;
        let n = self.annotations.len();
        let mut r: Vec<AnnotationType> = Vec::new();
        let mut i: usize = 0;
        proof {
            reveal(Seq::filter);
            assert(anns.take(0) =~= Seq::<Annotation>::empty());
            assert(Seq::<Annotation>::empty().filter(pred) =~= Seq::<Annotation>::empty());
            assert(Seq::<Annotation>::empty().map_values(to_type) =~= Seq::<AnnotationType>::empty());
        }
        while i < n
            invariant
                n == anns.len(),
                anns == self.annotations@,
                pred == (|a: Annotation| covers(a, s as int, e as int)),
                to_type == (|a: Annotation| a.annotation_type),
                i <= n,
                r@ == anns.take(i as int).filter(pred).map_values(to_type),
            decreases n - i,
        {
            let a = self.annotations[i];
            if a.start_byte_idx <= s && e <= a.end_byte_idx {
                r.push(a.annotation_type);
            }
            proof {
                assert(anns.take(i + 1) =~= anns.take(i as int).push(anns[i as int]));
                lemma_filter_push(anns.take(i as int), anns[i as int], pred);
                if pred(anns[i as int]) {
                    assert(anns.take(i + 1).filter(pred).map_values(to_type) =~= anns.take(
                        i as int,
                    ).filter(pred).map_values(to_type).push(to_type(anns[i as int])));
                }
            }
            i += 1;
        }
        proof {
            assert(anns.take(n as int) =~= anns);
        }
        r
    }

    fn byte_range(&self, s: usize, e: usize) -> (r: Vec<u8>)
        requires
            s <= e <= self.bytes@.len(),
        ensures
            r@ == self.bytes@.subrange(s as int, e as int),
    {
        let mut r: Vec<u8> = Vec::new();
        let mut i: usize = s;
        while i < e
            invariant
                s <= i <= e <= self.bytes@.len(),
                r@ == self.bytes@.subrange(s as int, i as int),
            decreases e - i,
        {
            r.push(self.bytes[i]);
            assert(r@ =~= self.bytes@.subrange(s as int, i + 1));
            i += 1;
        }
        r
    }

    /// The string partitioned at every annotation boundary, in left-to-right
    /// byte order, for rendering: consecutive segments that tile the whole
    /// text, none crossing an annotation endpoint, each carrying its bytes
    /// and the tags of the annotations that cover all of it.
    pub fn parts(&self) -> (r: Vec<AnnotatedPart>)
        ensures
            self.bytes@.len() == 0 ==> r@.len() == 0,
            self.bytes@.len() > 0 ==> r@.len() > 0 && r@[0].start_byte_idx == 0 && r@[r@.len()
                - 1].end_byte_idx == self.bytes@.len(),
            forall|i: int|
                0 <= i < r@.len() ==> (#[trigger] r@[i]).start_byte_idx < r@[i].end_byte_idx,
            forall|i: int|
                0 < i < r@.len() ==> (#[trigger] r@[i]).start_byte_idx == r@[i - 1].end_byte_idx,
            forall|i: int|
                0 < i < r@.len() ==> self.is_boundary((#[trigger] r@[i]).start_byte_idx as int),
            forall|i: int, q: int|
                0 <= i < r@.len() && (#[trigger] r@[i]).start_byte_idx < q < r@[i].end_byte_idx
                    ==> !(#[trigger] self.is_boundary(q)),
            forall|i: int|
                0 <= i < r@.len() ==> (#[trigger] r@[i]).bytes@ == self.bytes@.subrange(
                    r@[i].start_byte_idx as int,
                    r@[i].end_byte_idx as int,
                ),
            forall|i: int|
                0 <= i < r@.len() ==> (#[trigger] r@[i]).annotation_types@ == covering_types(
                    self.annotations@,
                    r@[i].start_byte_idx as int,
                    r@[i].end_byte_idx as int,
                ),
    {
        let len = self.bytes.len();
        let mut r: Vec<AnnotatedPart> = Vec::new();
        let mut seg_start: usize = 0;
        let mut p: usize = 1;
        while p < len
            invariant
                len == self.bytes@.len(),
                seg_start < p,
                p <= len || (p == 1 && len == 0),
                r@.len() == 0 ==> seg_start == 0,
                r@.len() > 0 ==> r@[0].start_byte_idx == 0 && r@[r@.len() - 1].end_byte_idx
                    == seg_start,
                forall|i: int|
                    0 <= i < r@.len() ==> (#[trigger] r@[i]).start_byte_idx < r@[i].end_byte_idx,
                forall|i: int|
                    0 < i < r@.len() ==> (#[trigger] r@[i]).start_byte_idx == r@[i
                        - 1].end_byte_idx,
                forall|i: int|
                    0 < i < r@.len() ==> self.is_boundary((#[trigger] r@[i]).start_byte_idx as int),
                forall|i: int, q: int|
                    0 <= i < r@.len() && (#[trigger] r@[i]).start_byte_idx < q < r@[i].end_byte_idx
                        ==> !(#[trigger] self.is_boundary(q)),
                forall|i: int|
                    0 <= i < r@.len() ==> (#[trigger] r@[i]).bytes@ == self.bytes@.subrange(
                        r@[i].start_byte_idx as int,
                        r@[i].end_byte_idx as int,
                    ),
                forall|i: int|
                    0 <= i < r@.len() ==> (#[trigger] r@[i]).annotation_types@ == covering_types(
                        self.annotations@,
                        r@[i].start_byte_idx as int,
                        r@[i].end_byte_idx as int,
                    ),
                forall|q: int| seg_start < q < p ==> !(#[trigger] self.is_boundary(q)),
                r@.len() > 0 ==> self.is_boundary(seg_start as int),
            decreases len - p,
        {
            if self.has_boundary_at(p) {
                let types = self.covering(seg_start, p);
                let seg = self.byte_range(seg_start, p);
                r.push(
                    AnnotatedPart {
                        bytes: seg,
                        start_byte_idx: seg_start,
                        end_byte_idx: p,
                        annotation_types: types,
                    },
                );
                seg_start = p;
            }
            p += 1;
        }
        if len > 0 {
            let types = self.covering(seg_start, len);
            let seg = self.byte_range(seg_start, len);
            r.push(
                AnnotatedPart {
                    bytes: seg,
                    start_byte_idx: seg_start,
                    end_byte_idx: len,
                    annotation_types: types,
                },
            );
        }
        r
    }
}

/// Filtering after appending one element keeps the filtered prefix and
/// appends the element exactly when it passes the predicate.
proof fn lemma_filter_push<A>(s: Seq<A>, x: A, p: spec_fn(A) -> bool)
    ensures
        s.push(x).filter(p) == if p(x) {
            s.filter(p).push(x)
        } else {
            s.filter(p)
        },
{
    reveal(Seq::filter);
    assert(s.push(x).drop_last() =~= s);
    assert(s.push(x).last() == x);
}

} // verus!
