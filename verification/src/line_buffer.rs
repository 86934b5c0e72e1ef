//! Framing of the serial byte stream into newline-terminated messages.
//!
//! Text arrives in chunks that need not end at a line break. The buffer keeps
//! the text after the last line break and hands out every complete line.
use vstd::prelude::*;
use crate::text::push_char;

verus! {

/// `s` split at every `'\n'`, as `str::split('\n')` splits it: the parts
/// between line breaks, in order, always at least one (the part after the
/// last line break, possibly empty).
pub open spec fn split_lines(s: Seq<char>) -> Seq<Seq<char>>
    decreases s.len(),
{
    if s.len() == 0 {
        seq![Seq::empty()]
    } else {
        let p = split_lines(s.drop_last());
        if s.last() == '\n' {
            p.push(Seq::empty())
        } else {
            p.update(p.len() - 1, p.last().push(s.last()))
        }
    }
}

/// The complete lines of `s`: every part before the last line break.
pub open spec fn complete_lines(s: Seq<char>) -> Seq<Seq<char>> {
    split_lines(s).drop_last()
}

/// The text of `s` after its last line break.
pub open spec fn trailing_text(s: Seq<char>) -> Seq<char> {
    split_lines(s).last()
}

/// Each line followed by a line break, all in order.
pub open spec fn join_terminated(lines: Seq<Seq<char>>) -> Seq<char>
    decreases lines.len(),
{
    if lines.len() == 0 {
        Seq::empty()
    } else {
        join_terminated(lines.drop_last()) + lines.last().push('\n')
    }
}

/// The views of a list of strings.
pub open spec fn strings_view(v: Seq<String>) -> Seq<Seq<char>> {
    v.map_values(|s: String| s@)
}

/// A buffer of received text that is not yet a complete line: it never
/// holds a line break.
pub struct LineBuffer {
    pending: String,
}

impl LineBuffer {
    #[verifier::type_invariant]
    spec fn holds_no_line_break(self) -> bool {
        !self.pending@.contains('\n')
    }
}

impl View for LineBuffer {
    type V = Seq<char>;

    closed spec fn view(&self) -> Seq<char> {
        self.pending@
    }
}

proof fn lemma_split_nonempty(s: Seq<char>)
    ensures
        split_lines(s).len() >= 1,
    decreases s.len(),
{
    if s.len() > 0 {
        lemma_split_nonempty(s.drop_last());
    }
}

/// A text without line breaks is one part.
proof fn lemma_split_without_break(s: Seq<char>)
    requires
        !s.contains('\n'),
    ensures
        split_lines(s) =~= seq![s],
    decreases s.len(),
{
    if s.len() > 0 {
        assert(!s.drop_last().contains('\n')) by {
            if s.drop_last().contains('\n') {
                let k = choose|k: int| 0 <= k < s.drop_last().len() && s.drop_last()[k] == '\n';
                assert(s[k] == '\n');
            }
        }
        lemma_split_without_break(s.drop_last());
        assert(s.last() != '\n') by {
            assert(s[s.len() - 1] == s.last());
        }
        assert(s.drop_last().push(s.last()) =~= s);
    } else {
        assert(s =~= Seq::<char>::empty());
    }
}

/// No part of a split holds a line break.
pub proof fn law_parts_hold_no_line_break(s: Seq<char>)
    ensures
        forall|i: int| 0 <= i < split_lines(s).len() ==> !(#[trigger] split_lines(s)[i]).contains('\n'),
    decreases s.len(),
{
    if s.len() > 0 {
        law_parts_hold_no_line_break(s.drop_last());
        lemma_split_nonempty(s.drop_last());
        let p = split_lines(s.drop_last());
        if s.last() != '\n' {
            let last = p.last().push(s.last());
            assert(!last.contains('\n')) by {
                if last.contains('\n') {
                    let k = choose|k: int| 0 <= k < last.len() && last[k] == '\n';
                    if k < p.last().len() {
                        assert(p.last()[k] == '\n');
                        assert(p[p.len() - 1] == p.last());
                    }
                }
            }
            assert forall|i: int| 0 <= i < split_lines(s).len() implies !(#[trigger] split_lines(s)[i]).contains('\n') by {
                if i < p.len() - 1 {
                    assert(split_lines(s)[i] == p[i]);
                }
            }
        } else {
            assert forall|i: int| 0 <= i < split_lines(s).len() implies !(#[trigger] split_lines(s)[i]).contains('\n') by {
                if i < p.len() {
                    assert(split_lines(s)[i] == p[i]);
                } else {
                    assert(split_lines(s)[i] =~= Seq::<char>::empty());
                }
            }
        }
    }
}

/// No text is lost or added: the complete lines, each with its line break,
/// followed by the trailing text, spell the whole input.
pub proof fn law_no_text_lost(s: Seq<char>)
    ensures
        join_terminated(complete_lines(s)) + trailing_text(s) == s,
    decreases s.len(),
{
    if s.len() == 0 {
        assert(complete_lines(s) =~= Seq::<Seq<char>>::empty());
        assert(join_terminated(complete_lines(s)) + trailing_text(s) =~= s);
    } else {
        let prior = s.drop_last();
        law_no_text_lost(prior);
        lemma_split_nonempty(prior);
        let p = split_lines(prior);
        if s.last() == '\n' {
            assert(complete_lines(s) =~= p);
            assert(p.drop_last() =~= complete_lines(prior));
            assert(join_terminated(p) == join_terminated(p.drop_last()) + p.last().push('\n'));
            assert(trailing_text(s) =~= Seq::<char>::empty());
            assert(s =~= prior.push('\n'));
            let j = join_terminated(p.drop_last());
            assert(j + p.last() == prior);
            assert(j + p.last().push('\n') =~= (j + p.last()).push('\n'));
            assert(join_terminated(complete_lines(s)) + trailing_text(s) =~= s);
        } else {
            assert(complete_lines(s) =~= complete_lines(prior));
            assert(trailing_text(s) == p.last().push(s.last()));
            assert(s =~= prior.push(s.last()));
            let j = join_terminated(p.drop_last());
            assert(j + p.last() == prior);
            assert(j + p.last().push(s.last()) =~= (j + p.last()).push(s.last()));
            assert(join_terminated(complete_lines(s)) + trailing_text(s) =~= s);
        }
    }
}

proof fn lemma_split_append(s: Seq<char>, t: Seq<char>)
    ensures
        split_lines(s + t) == split_lines(s).drop_last() + split_lines(split_lines(s).last() + t),
    decreases t.len(),
{
    lemma_split_nonempty(s);
    let a = split_lines(s).drop_last();
    let l = split_lines(s).last();
    if t.len() == 0 {
        assert(s + t =~= s);
        assert(l + t =~= l);
        law_parts_hold_no_line_break(s);
        assert(split_lines(s)[split_lines(s).len() - 1] == l);
        lemma_split_without_break(l);
        assert(split_lines(s + t) =~= a + split_lines(l + t));
    } else {
        let shorter = t.drop_last();
        let c = t.last();
        lemma_split_append(s, shorter);
        assert((s + t).drop_last() =~= s + shorter);
        assert((s + t).last() == c);
        assert((l + t).drop_last() =~= l + shorter);
        assert((l + t).last() == c);
        lemma_split_nonempty(l + shorter);
        let b = split_lines(l + shorter);
        if c == '\n' {
            assert(split_lines(s + t) =~= a + b.push(Seq::empty()));
        } else {
            assert(split_lines(s + t) =~= a + b.update(b.len() - 1, b.last().push(c)));
        }
    }
}

/// Where a chunk boundary falls does not matter: pushing `a` and then `b`
/// hands out the same lines, in the same order, and leaves the same text
/// pending as pushing `a` followed by `b` at once.
pub proof fn law_chunk_boundaries_do_not_matter(pending: Seq<char>, a: Seq<char>, b: Seq<char>)
    ensures
        complete_lines(pending + a) + complete_lines(trailing_text(pending + a) + b) == complete_lines(
            pending + (a + b),
        ),
        trailing_text(trailing_text(pending + a) + b) == trailing_text(pending + (a + b)),
{
    let s = pending + a;
    assert(pending + (a + b) =~= s + b);
    lemma_split_append(s, b);
    lemma_split_nonempty(trailing_text(s) + b);
    let x = split_lines(s).drop_last();
    let y = split_lines(trailing_text(s) + b);
    assert((x + y).drop_last() =~= x + y.drop_last());
    assert((x + y).last() == y.last());
}

impl LineBuffer {
    /// An empty buffer.
    pub fn new() -> (b: LineBuffer)
        ensures
            b@ == Seq::<char>::empty(),
    {
        LineBuffer { pending: String::new() }
    }

    /// The text received after the last line break.
    pub fn pending(&self) -> (r: &String)
        ensures
            r@ == self@,
    {
        &self.pending
    }

    /// Adds a received chunk to the buffer and hands out the lines it
    /// completes, without their line breaks; the text after the last line
    /// break stays in the buffer.
    pub fn push_chunk(&mut self, chunk: &str) -> (lines: Vec<String>)
        ensures
            strings_view(lines@) == complete_lines(old(self)@ + chunk@),
            final(self)@ == trailing_text(old(self)@ + chunk@),
    {
        proof {
            use_type_invariant(&*self);
            lemma_split_without_break(self.pending@);
        }
        let ghost start = self.pending@;
        let mut current = self.pending.clone();
        let mut lines: Vec<String> = Vec::new();
        let n = chunk.unicode_len();
        let mut i: usize = 0;
        assert(start + chunk@.subrange(0, 0) =~= start);
        assert(strings_view(lines@).push(current@) =~= split_lines(start));
        while i < n
            invariant
                n == chunk@.len(),
                i <= n,
                strings_view(lines@).push(current@) == split_lines(start + chunk@.subrange(0, i as int)),
            decreases n - i,
        {
            let c = chunk.get_char(i);
            let ghost before = start + chunk@.subrange(0, i as int);
            let ghost prior = strings_view(lines@);
            assert(start + chunk@.subrange(0, i + 1) =~= before.push(c));
            assert(before.push(c).drop_last() =~= before);
            proof {
                lemma_split_nonempty(before);
            }
            if c == '\n' {
                let done = current;
                lines.push(done);
                current = String::new();
                assert(strings_view(lines@) =~= prior.push(done@));
                assert(strings_view(lines@).push(current@) =~= split_lines(before).push(Seq::empty()));
            } else {
                push_char(&mut current, c);
                assert(strings_view(lines@) =~= prior);
                assert(strings_view(lines@).push(current@) =~= split_lines(before).update(
                    split_lines(before).len() - 1,
                    split_lines(before).last().push(c),
                ));
            }
            i = i + 1;
        }
        assert(chunk@.subrange(0, n as int) =~= chunk@);
        assert(strings_view(lines@) =~= strings_view(lines@).push(current@).drop_last());
        proof {
            law_parts_hold_no_line_break(start + chunk@);
            lemma_split_nonempty(start + chunk@);
            let parts = split_lines(start + chunk@);
            assert(parts[parts.len() - 1] == current@);
        }
        self.pending = current;
        lines
    }
}

} // verus!
