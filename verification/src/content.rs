//! Content streams: drawing operators, and the coalescing of a run of styled
//! glyphs into one fill and one show operator per block of equal style.

use vstd::prelude::*;

verus! {

/// A glyph as the layout hands it over. Lengths are whole layout units.
#[derive(Clone, Copy, Debug, PartialEq, Eq, Structural, Hash)]
pub struct StyledGlyph {
    pub glyph_id: u32,
    pub advance: i32,
    pub x_offset: i32,
    pub y_offset: i32,
    /// Index into the layout's style table.
    pub style_index: u32,
    /// The bytes of the source text that the glyph stands for.
    pub text_start: usize,
    pub text_end: usize,
}

/// A paint: an RGB colour.
#[derive(Clone, Copy, Debug, PartialEq, Eq, Structural, Hash)]
pub struct Paint {
    pub red: u8,
    pub green: u8,
    pub blue: u8,
}

/// A block of neighbouring glyphs of one style: the glyphs `start..end` of a
/// run, shown from the horizontal position `x`.
#[derive(Clone, Copy, Debug, PartialEq, Eq, Structural, Hash)]
pub struct Batch {
    pub style: u32,
    pub start: usize,
    pub end: usize,
    pub x: i64,
}

/// Why a run could not be drawn.
#[derive(Clone, Copy, Debug, PartialEq, Eq, Structural, Hash)]
pub enum LayoutError {
    /// The horizontal cursor left the range of positions.
    CursorOverflow,
}

/// The sum of the advances of the first `n` glyphs.
pub open spec fn prefix_advance(glyphs: Seq<StyledGlyph>, n: int) -> int
    decreases n,
{
    if n <= 0 {
        0
    } else {
        prefix_advance(glyphs, n - 1) + glyphs[n - 1].advance
    }
}

/// Whether the cursor, started at `origin`, stays a position after each of
/// the glyphs.
pub open spec fn cursor_fits(glyphs: Seq<StyledGlyph>, origin: int) -> bool {
    forall|k: int|
        0 <= k <= glyphs.len() ==> i64::MIN <= origin + #[trigger] prefix_advance(glyphs, k)
            <= i64::MAX
}

/// Whether `batches` split the first `upto` glyphs into their blocks of equal
/// style: the batches follow one another from 0 to `upto` without gap, none
/// is empty, each holds glyphs of its one style, neighbours differ in style,
/// and each starts where the cursor stands after the glyphs before it.
pub open spec fn splits_into(
    glyphs: Seq<StyledGlyph>,
    origin: int,
    batches: Seq<Batch>,
    upto: int,
) -> bool {
    &&& 0 <= upto <= glyphs.len()
    &&& (batches.len() == 0 <==> upto == 0)
    &&& batches.len() > 0 ==> batches[0].start == 0 && batches.last().end == upto
    &&& forall|k: int|
        0 <= k < batches.len() ==> {
            &&& (#[trigger] batches[k]).start < batches[k].end <= upto
            &&& batches[k].x == origin + prefix_advance(glyphs, batches[k].start as int)
            &&& forall|j: int|
                batches[k].start <= j < batches[k].end ==> (#[trigger] glyphs[j]).style_index
                    == batches[k].style
        }
    &&& forall|k: int, m: int|
        #![trigger batches[k], batches[m]]
        0 <= k && m == k + 1 && m < batches.len() ==> batches[k].end == batches[m].start
            && batches[k].style != batches[m].style
}

/// Whether `batches` are the blocks of equal style of the whole run.
pub open spec fn is_coalescing(glyphs: Seq<StyledGlyph>, origin: int, batches: Seq<Batch>) -> bool {
    splits_into(glyphs, origin, batches, glyphs.len() as int)
}

/// The batches of a run: its one splitting into blocks of equal style (see
/// `lemma_coalescing_is_unique`). It exists where the cursor fits.
pub open spec fn batches_of(glyphs: Seq<StyledGlyph>, origin: int) -> Seq<Batch> {
    choose|batches: Seq<Batch>| is_coalescing(glyphs, origin, batches)
}

/// A splitting of the glyphs before `batch` stays one when `batch` is added,
/// where `batch` begins at their end, holds glyphs of its one style, differs
/// in style from the batch before it, and starts where the cursor stands.
proof fn lemma_splits_extend(
    glyphs: Seq<StyledGlyph>,
    origin: int,
    before: Seq<Batch>,
    batch: Batch,
)
    requires
        splits_into(glyphs, origin, before, batch.start as int),
        batch.start < batch.end <= glyphs.len(),
        batch.x == origin + prefix_advance(glyphs, batch.start as int),
        forall|j: int|
            batch.start <= j < batch.end ==> (#[trigger] glyphs[j]).style_index == batch.style,
        before.len() > 0 ==> before.last().style != batch.style,
    ensures
        splits_into(glyphs, origin, before.push(batch), batch.end as int),
{
    let after = before.push(batch);
    assert(forall|k: int| 0 <= k < before.len() ==> after[k] == before[k]);
    assert(before.len() > 0 ==> before.last() == after[before.len() - 1]);
    assert(after.last() == batch);
}

/// Splits a run into its blocks of equal style, in one pass from left to
/// right, and gives the cursor's position after the run. A style that comes
/// back after another one starts a block of its own.
pub fn coalesce(glyphs: &Vec<StyledGlyph>, origin_x: i64) -> (r: Result<
    (Vec<Batch>, i64),
    LayoutError,
>)
    ensures
        cursor_fits(glyphs@, origin_x as int) ==> r is Ok,
        !cursor_fits(glyphs@, origin_x as int) ==> r == Err::<(Vec<Batch>, i64), LayoutError>(
            LayoutError::CursorOverflow,
        ),
        r matches Ok(out) ==> {
            &&& is_coalescing(glyphs@, origin_x as int, out.0@)
            &&& out.0@ == batches_of(glyphs@, origin_x as int)
            &&& out.1 == origin_x + prefix_advance(glyphs@, glyphs@.len() as int)
        },
{
    let mut batches: Vec<Batch> = Vec::new();
    let mut x: i64 = origin_x;
    let mut run_start_x: i64 = origin_x;
    let mut start: usize = 0;
    let mut i: usize = 0;
    while i < glyphs.len()
        invariant
            start <= i <= glyphs.len(),
            i > 0 ==> start < i,
            x == origin_x + prefix_advance(glyphs@, i as int),
            run_start_x == origin_x + prefix_advance(glyphs@, start as int),
            forall|k: int|
                0 <= k <= i ==> i64::MIN <= origin_x + #[trigger] prefix_advance(glyphs@, k)
                    <= i64::MAX,
            forall|j: int|
                start <= j < i ==> (#[trigger] glyphs@[j]).style_index
                    == glyphs@[start as int].style_index,
            splits_into(glyphs@, origin_x as int, batches@, start as int),
            batches.len() > 0 ==> batches@.last().style != glyphs@[start as int].style_index,
        decreases glyphs.len() - i,
    {
        let glyph = glyphs[i];
        if i > start && glyphs[start].style_index != glyph.style_index {
            let batch = Batch { style: glyphs[start].style_index, start, end: i, x: run_start_x };
            proof {
                lemma_splits_extend(glyphs@, origin_x as int, batches@, batch);
            }
            batches.push(batch);
            start = i;
            run_start_x = x;
        }
        match x.checked_add(glyph.advance as i64) {
            Some(next) => {
                x = next;
            },
            None => {
                assert(!cursor_fits(glyphs@, origin_x as int)) by {
                    let k = i + 1;
                    assert(!(i64::MIN <= origin_x + prefix_advance(glyphs@, k as int) <= i64::MAX));
                }
                return Err(LayoutError::CursorOverflow);
            },
        }
        i += 1;
    }
    if start < i {
        let batch = Batch { style: glyphs[start].style_index, start, end: i, x: run_start_x };
        proof {
            lemma_splits_extend(glyphs@, origin_x as int, batches@, batch);
        }
        batches.push(batch);
    }
    proof {
        assert(is_coalescing(glyphs@, origin_x as int, batches@));
        assert(is_coalescing(glyphs@, origin_x as int, batches_of(glyphs@, origin_x as int)));
        lemma_coalescing_is_unique(
            glyphs@,
            origin_x as int,
            batches@,
            batches_of(glyphs@, origin_x as int),
        );
    }
    Ok((batches, x))
}

/// A drawing operator of a content stream.
#[derive(Clone, Copy, Debug, PartialEq, Eq, Structural, Hash)]
pub enum Operator {
    /// Makes `paint` the fill of what follows.
    SetFill { paint: Paint },
    /// Shows the glyphs `start..end` of the stream's glyph list from
    /// `(x, y)`, in the font with handle `font` at size `font_size`.
    ShowGlyphs { x: i64, y: i64, font: usize, font_size: u32, start: usize, end: usize },
}

/// The operators that draw `batches`: for each batch its fill, then its
/// glyphs. `base` is where the run's glyphs begin in the stream's glyph list.
pub open spec fn run_operators(
    batches: Seq<Batch>,
    styles: Seq<Paint>,
    y: i64,
    font: usize,
    font_size: u32,
    base: int,
) -> Seq<Operator> {
    Seq::new(
        2 * batches.len(),
        |k: int|
            if k % 2 == 0 {
                Operator::SetFill { paint: styles[batches[k / 2].style as int] }
            } else {
                Operator::ShowGlyphs {
                    x: batches[k / 2].x,
                    y,
                    font,
                    font_size,
                    start: (base + batches[k / 2].start) as usize,
                    end: (base + batches[k / 2].end) as usize,
                }
            },
    )
}

/// A finished content stream: its operators, and the glyphs they show.
pub struct ContentStream {
    ops: Vec<Operator>,
    glyphs: Vec<StyledGlyph>,
}

impl ContentStream {
    /// The operators, in drawing order.
    pub closed spec fn operators(&self) -> Seq<Operator> {
        self.ops@
    }

    /// The glyphs that the show operators index.
    pub closed spec fn glyph_list(&self) -> Seq<StyledGlyph> {
        self.glyphs@
    }

    /// The operators, in drawing order.
    pub fn ops(&self) -> (ops: &Vec<Operator>)
        ensures
            ops@ == self.operators(),
    {
        &self.ops
    }

    /// The glyphs that the show operators index.
    pub fn glyphs(&self) -> (glyphs: &Vec<StyledGlyph>)
        ensures
            glyphs@ == self.glyph_list(),
    {
        &self.glyphs
    }
}

/// The content stream of a page while it is being drawn.
pub struct Surface {
    ops: Vec<Operator>,
    glyphs: Vec<StyledGlyph>,
    fill: Option<Paint>,
}

impl Surface {
    /// The operators emitted so far.
    pub closed spec fn operators(&self) -> Seq<Operator> {
        self.ops@
    }

    /// The glyphs emitted so far.
    pub closed spec fn glyph_list(&self) -> Seq<StyledGlyph> {
        self.glyphs@
    }

    /// The fill that is active, if one was set.
    pub closed spec fn active_fill(&self) -> Option<Paint> {
        self.fill
    }

    /// A surface on which nothing was drawn.
    pub fn new() -> (s: Surface)
        ensures
            s.operators() == Seq::<Operator>::empty(),
            s.glyph_list() == Seq::<StyledGlyph>::empty(),
            s.active_fill() == None::<Paint>,
    {
        Surface { ops: Vec::new(), glyphs: Vec::new(), fill: None }
    }

    /// Makes `paint` the active fill and emits the operator that sets it.
    pub fn set_fill(&mut self, paint: Paint)
        ensures
            final(self).operators() == old(self).operators().push(Operator::SetFill { paint }),
            final(self).glyph_list() == old(self).glyph_list(),
            final(self).active_fill() == Some(paint),
    {
        self.fill = Some(paint);
        self.ops.push(Operator::SetFill { paint });
    }

    /// Shows the glyphs `start..end` of `glyphs` from `(x, y)`: appends them
    /// to the glyph list and emits one show operator for them. The glyph
    /// list is a vector, so its new length is an index still.
    pub fn draw_glyph_range(
        &mut self,
        x: i64,
        y: i64,
        glyphs: &[StyledGlyph],
        start: usize,
        end: usize,
        font: usize,
        font_size: u32,
    )
        requires
            start <= end <= glyphs@.len(),
        ensures
            final(self).glyph_list() == old(self).glyph_list() + glyphs@.subrange(
                start as int,
                end as int,
            ),
            final(self).operators() == old(self).operators().push(
                Operator::ShowGlyphs {
                    x,
                    y,
                    font,
                    font_size,
                    start: old(self).glyph_list().len() as usize,
                    end: (old(self).glyph_list().len() + (end - start)) as usize,
                },
            ),
            final(self).active_fill() == old(self).active_fill(),
            old(self).glyph_list().len() + (end - start) <= usize::MAX,
    {
        let first = self.glyphs.len();
        let mut i: usize = start;
        while i < end
            invariant
                start <= i <= end <= glyphs@.len(),
                first == old(self).glyphs@.len(),
                self.glyphs@ == old(self).glyphs@ + glyphs@.subrange(start as int, i as int),
                self.ops == old(self).ops,
                self.fill == old(self).fill,
            decreases end - i,
        {
            self.glyphs.push(glyphs[i]);
            i += 1;
            assert(self.glyphs@ =~= old(self).glyphs@ + glyphs@.subrange(start as int, i as int));
        }
        let last = self.glyphs.len();
        self.ops.push(Operator::ShowGlyphs { x, y, font, font_size, start: first, end: last });
    }

    /// Shows all of `glyphs` from `(x, y)` with one show operator.
    pub fn draw_glyphs(&mut self, x: i64, y: i64, glyphs: &[StyledGlyph], font: usize, font_size: u32)
        ensures
            final(self).glyph_list() == old(self).glyph_list() + glyphs@,
            final(self).operators() == old(self).operators().push(
                Operator::ShowGlyphs {
                    x,
                    y,
                    font,
                    font_size,
                    start: old(self).glyph_list().len() as usize,
                    end: (old(self).glyph_list().len() + glyphs@.len()) as usize,
                },
            ),
            final(self).active_fill() == old(self).active_fill(),
    {
        assert(glyphs@.subrange(0, glyphs@.len() as int) =~= glyphs@);
        self.draw_glyph_range(x, y, glyphs, 0, glyphs.len(), font, font_size);
    }

    /// Draws one run: splits it into its blocks of equal style and emits, for
    /// each block in order, the fill of its style and one show operator.
    /// Gives the cursor's position after the run. Where the cursor would
    /// leave the range of positions, nothing is drawn.
    pub fn draw_run(
        &mut self,
        origin_x: i64,
        y: i64,
        glyphs: &Vec<StyledGlyph>,
        styles: &Vec<Paint>,
        font: usize,
        font_size: u32,
    ) -> (r: Result<i64, LayoutError>)
        requires
            forall|i: int|
                0 <= i < glyphs@.len() ==> (#[trigger] glyphs@[i]).style_index < styles@.len(),
        ensures
            cursor_fits(glyphs@, origin_x as int) ==> r is Ok,
            !cursor_fits(glyphs@, origin_x as int) ==> r == Err::<i64, LayoutError>(
                LayoutError::CursorOverflow,
            ) && final(self).operators() == old(self).operators() && final(self).glyph_list() == old(
                self,
            ).glyph_list() && final(self).active_fill() == old(self).active_fill(),
            r matches Ok(cursor) ==> {
                &&& cursor == origin_x + prefix_advance(glyphs@, glyphs@.len() as int)
                &&& final(self).glyph_list() == old(self).glyph_list() + glyphs@
                &&& final(self).operators() == old(self).operators() + run_operators(
                    batches_of(glyphs@, origin_x as int),
                    styles@,
                    y,
                    font,
                    font_size,
                    old(self).glyph_list().len() as int,
                )
                &&& final(self).active_fill() == (if glyphs@.len() == 0 {
                    old(self).active_fill()
                } else {
                    Some(styles@[glyphs@.last().style_index as int])
                })
            },
    {
        let (batches, cursor) = match coalesce(glyphs, origin_x) {
            Ok(out) => out,
            Err(e) => {
                return Err(e);
            },
        };
        let ghost base = self.glyphs@.len() as int;
        let ghost target = run_operators(batches@, styles@, y, font, font_size, base);
        let mut k: usize = 0;
        while k < batches.len()
            invariant
                k <= batches.len(),
                is_coalescing(glyphs@, origin_x as int, batches@),
                forall|i: int|
                0 <= i < glyphs@.len() ==> (#[trigger] glyphs@[i]).style_index < styles@.len(),
                base == old(self).glyphs@.len(),
                target == run_operators(batches@, styles@, y, font, font_size, base),
                self.glyphs@ == old(self).glyphs@ + glyphs@.subrange(
                    0,
                    if k == 0 {
                        0
                    } else {
                        batches@[k - 1].end as int
                    },
                ),
                self.ops@ == old(self).ops@ + target.subrange(0, 2 * k),
                self.fill == (if k == 0 {
                    old(self).fill
                } else {
                    Some(styles@[batches@[k - 1].style as int])
                }),
            decreases batches.len() - k,
        {
            let batch = batches[k];
            let ghost done: int = if k == 0 { 0 } else { batches@[k - 1].end as int };
            proof {
                assert(batches@[k as int].start == done) by {
                    if k > 0 {
                        assert(batches@[k - 1].end == batches@[k as int].start);
                    }
                }
                assert(glyphs@[batch.start as int].style_index == batch.style);
            }
            self.set_fill(styles[batch.style as usize]);
            self.draw_glyph_range(
                batch.x,
                y,
                glyphs.as_slice(),
                batch.start,
                batch.end,
                font,
                font_size,
            );
            proof {
                assert(self.glyphs@ =~= old(self).glyphs@ + glyphs@.subrange(0, batch.end as int));
                assert(target[2 * k] == Operator::SetFill { paint: styles@[batch.style as int] });
                assert(target[2 * k + 1] == Operator::ShowGlyphs {
                    x: batch.x,
                    y,
                    font,
                    font_size,
                    start: (base + batch.start) as usize,
                    end: (base + batch.end) as usize,
                });
                assert(self.ops@ =~= old(self).ops@ + target.subrange(0, 2 * (k + 1)));
            }
            k += 1;
        }
        proof {
            assert(target.subrange(0, 2 * (batches@.len() as int)) =~= target);
            assert(glyphs@.subrange(0, glyphs@.len() as int) =~= glyphs@);
            if batches@.len() == 0 {
                assert(glyphs@.subrange(0, 0) =~= glyphs@);
            }
        }
        Ok(cursor)
    }

    /// Ends the drawing and freezes what was drawn.
    pub fn finish(self) -> (stream: ContentStream)
        ensures
            stream.operators() == self.operators(),
            stream.glyph_list() == self.glyph_list(),
    {
        ContentStream { ops: self.ops, glyphs: self.glyphs }
    }
}

/// Of two splittings of one run that begin a batch at the same glyph, the
/// first does not end that batch before the second does.
proof fn lemma_batch_reaches(
    glyphs: Seq<StyledGlyph>,
    origin: int,
    a: Seq<Batch>,
    b: Seq<Batch>,
    k: int,
)
    requires
        is_coalescing(glyphs, origin, a),
        is_coalescing(glyphs, origin, b),
        0 <= k < a.len(),
        k < b.len(),
        a[k].start == b[k].start,
    ensures
        a[k].end >= b[k].end,
{
    if a[k].end < b[k].end {
        let cut = a[k].end as int;
        assert(glyphs[a[k].start as int].style_index == a[k].style);
        assert(glyphs[b[k].start as int].style_index == b[k].style);
        assert(glyphs[cut].style_index == b[k].style);
        assert(k + 1 < a.len()) by {
            if k + 1 == a.len() {
                assert(a.last() == a[k]);
            }
        }
        assert(a[k].end == a[k + 1].start && a[k].style != a[k + 1].style);
        assert(glyphs[a[k + 1].start as int].style_index == a[k + 1].style);
    }
}

/// Two splittings of one run agree on each batch that both have.
proof fn lemma_batches_agree(
    glyphs: Seq<StyledGlyph>,
    origin: int,
    a: Seq<Batch>,
    b: Seq<Batch>,
    k: int,
)
    requires
        is_coalescing(glyphs, origin, a),
        is_coalescing(glyphs, origin, b),
        0 <= k < a.len(),
        k < b.len(),
    ensures
        a[k] == b[k],
    decreases k,
{
    if k > 0 {
        lemma_batches_agree(glyphs, origin, a, b, k - 1);
        assert(a[k - 1].end == a[k].start);
        assert(b[k - 1].end == b[k].start);
    }
    assert(a[k].start == b[k].start);
    lemma_batch_reaches(glyphs, origin, a, b, k);
    lemma_batch_reaches(glyphs, origin, b, a, k);
    assert(glyphs[a[k].start as int].style_index == a[k].style);
    assert(glyphs[b[k].start as int].style_index == b[k].style);
}

/// Of two splittings of one run, the second has no more batches than the
/// first.
proof fn lemma_no_more_batches(
    glyphs: Seq<StyledGlyph>,
    origin: int,
    a: Seq<Batch>,
    b: Seq<Batch>,
)
    requires
        is_coalescing(glyphs, origin, a),
        is_coalescing(glyphs, origin, b),
    ensures
        b.len() <= a.len(),
{
    if a.len() < b.len() {
        let n = a.len() as int;
        if n > 0 {
            lemma_batches_agree(glyphs, origin, a, b, n - 1);
            assert(a.last() == a[n - 1]);
            assert(b[n - 1].end == b[n].start);
            assert(b[n].start < b[n].end <= glyphs.len());
        }
    }
}

/// A run has one splitting into blocks of equal style and no other: what
/// `is_coalescing` asks of the batches fixes each of them.
pub proof fn lemma_coalescing_is_unique(
    glyphs: Seq<StyledGlyph>,
    origin: int,
    a: Seq<Batch>,
    b: Seq<Batch>,
)
    requires
        is_coalescing(glyphs, origin, a),
        is_coalescing(glyphs, origin, b),
    ensures
        a == b,
{
    lemma_no_more_batches(glyphs, origin, a, b);
    lemma_no_more_batches(glyphs, origin, b, a);
    assert forall|k: int| 0 <= k < a.len() implies a[k] == b[k] by {
        lemma_batches_agree(glyphs, origin, a, b, k);
    }
    assert(a =~= b);
}

/// Each glyph of a run lies in one of the run's batches, and that batch has
/// the glyph's style.
pub proof fn lemma_batches_keep_every_glyph(
    glyphs: Seq<StyledGlyph>,
    origin: int,
    batches: Seq<Batch>,
    j: int,
)
    requires
        is_coalescing(glyphs, origin, batches),
        0 <= j < glyphs.len(),
    ensures
        exists|k: int|
            0 <= k < batches.len() && (#[trigger] batches[k]).start <= j < batches[k].end
                && batches[k].style == glyphs[j].style_index,
{
    lemma_glyph_is_covered(glyphs, origin, batches, j, batches.len() - 1);
}

/// A glyph before the end of batch `k` lies in one of the batches up to `k`.
proof fn lemma_glyph_is_covered(
    glyphs: Seq<StyledGlyph>,
    origin: int,
    batches: Seq<Batch>,
    j: int,
    k: int,
)
    requires
        is_coalescing(glyphs, origin, batches),
        0 <= k < batches.len(),
        0 <= j < batches[k].end,
    ensures
        exists|m: int|
            0 <= m <= k && (#[trigger] batches[m]).start <= j < batches[m].end && batches[m].style
                == glyphs[j].style_index,
    decreases k,
{
    if batches[k].start <= j {
        assert(glyphs[j].style_index == batches[k].style);
    } else {
        assert(k > 0);
        assert(batches[k - 1].end == batches[k].start);
        lemma_glyph_is_covered(glyphs, origin, batches, j, k - 1);
    }
}

/// A batch begins where the style changes and nowhere else: the glyph before
/// its first has another style, and inside it no glyph differs in style from
/// the one before.
pub proof fn lemma_batches_break_at_style_changes(
    glyphs: Seq<StyledGlyph>,
    origin: int,
    batches: Seq<Batch>,
    k: int,
)
    requires
        is_coalescing(glyphs, origin, batches),
        0 <= k < batches.len(),
    ensures
        batches[k].start > 0 ==> glyphs[batches[k].start - 1].style_index
            != glyphs[batches[k].start as int].style_index,
        forall|j: int|
            batches[k].start < j < batches[k].end ==> glyphs[j - 1].style_index
                == (#[trigger] glyphs[j]).style_index,
{
    if k > 0 {
        assert(batches[k - 1].end == batches[k].start);
        assert(glyphs[batches[k - 1].end - 1].style_index == batches[k - 1].style);
    }
    assert(glyphs[batches[k].start as int].style_index == batches[k].style);
    assert forall|j: int| batches[k].start < j < batches[k].end implies glyphs[j - 1].style_index
        == (#[trigger] glyphs[j]).style_index by {
        assert(glyphs[j - 1].style_index == batches[k].style);
    }
}

/// A run has no more batches than glyphs, so drawing it emits at most one
/// fill and one show operator per glyph, and exactly one of each per batch.
pub proof fn lemma_batch_count(glyphs: Seq<StyledGlyph>, origin: int, batches: Seq<Batch>)
    requires
        is_coalescing(glyphs, origin, batches),
    ensures
        batches.len() <= glyphs.len(),
{
    if batches.len() > 0 {
        lemma_batch_index_below_end(glyphs, origin, batches, batches.len() - 1);
        assert(batches.last() == batches[batches.len() - 1]);
    }
}

/// The batch at position `k` ends after at least `k + 1` glyphs.
proof fn lemma_batch_index_below_end(
    glyphs: Seq<StyledGlyph>,
    origin: int,
    batches: Seq<Batch>,
    k: int,
)
    requires
        is_coalescing(glyphs, origin, batches),
        0 <= k < batches.len(),
    ensures
        k < batches[k].end,
    decreases k,
{
    if k > 0 {
        lemma_batch_index_below_end(glyphs, origin, batches, k - 1);
        assert(batches[k - 1].end == batches[k].start);
    }
}

} // verus!
