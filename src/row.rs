//! One line of text: its raw characters and their rendered form, in which each
//! tab is expanded to the next tab stop.
use vstd::prelude::*;

verus! {

/// Width of a tab stop, in rendered columns.
pub const TAB_STOP: usize = 4;

/// The tab character.
pub const TAB_CHAR: char = '\t';

/// A run of `n` spaces.
pub open spec fn spaces(n: nat) -> Seq<char> {
    Seq::new(n, |_i: int| ' ')
}

/// The number of spaces that a tab expands to when it stands at rendered column `col`.
pub open spec fn tab_fill(col: nat) -> nat {
    (TAB_STOP - col % (TAB_STOP as nat)) as nat
}

/// The rendered text of `raw`: every character but a tab is kept as it is; a tab
/// becomes the spaces that reach the next multiple of `TAB_STOP`.
pub open spec fn render_of(raw: Seq<char>) -> Seq<char>
    decreases raw.len(),
{
    if raw.len() == 0 {
        seq![]
    } else {
        let before = render_of(raw.drop_last());
        if raw.last() == '\t' {
            before + spaces(tab_fill(before.len()))
        } else {
            before.push(raw.last())
        }
    }
}

/// The rendered column at which raw column `cx` of `raw` is shown; a column past
/// the end of the line counts as the end of the line.
pub open spec fn render_col(raw: Seq<char>, cx: nat) -> nat {
    if cx <= raw.len() {
        render_of(raw.take(cx as int)).len()
    } else {
        render_of(raw).len()
    }
}

/// A line without tabs is rendered as it is.
pub proof fn lemma_render_without_tabs(raw: Seq<char>)
    requires
        !raw.contains('\t'),
    ensures
        render_of(raw) == raw,
    decreases raw.len(),
{
    if raw.len() > 0 {
        let before = raw.drop_last();
        assert(!before.contains('\t')) by {
            if before.contains('\t') {
                let k = choose|k: int| 0 <= k < before.len() && before[k] == '\t';
                assert(raw[k] == '\t');
            }
        }
        lemma_render_without_tabs(before);
        assert(raw[raw.len() - 1] != '\t');
        assert(before.push(raw.last()) =~= raw);
    }
}

/// Rendering a longer line only appends to what the shorter one rendered.
proof fn lemma_render_extends(raw: Seq<char>)
    requires
        raw.len() > 0,
    ensures
        render_of(raw.drop_last()).len() <= render_of(raw).len(),
        render_of(raw).take(render_of(raw.drop_last()).len() as int) == render_of(raw.drop_last()),
{
    let before = render_of(raw.drop_last());
    if raw.last() == '\t' {
        assert((before + spaces(tab_fill(before.len()))).take(before.len() as int) =~= before);
    } else {
        assert(before.push(raw.last()).take(before.len() as int) =~= before);
    }
}

/// The cursor and the text never disagree: the text rendered from the first `cx`
/// raw characters of a line is exactly the part of the rendered line that lies
/// before the cursor's rendered column.
pub proof fn lemma_cursor_matches_render(raw: Seq<char>, cx: nat)
    ensures
        render_col(raw, cx) <= render_of(raw).len(),
        render_of(raw).take(render_col(raw, cx) as int) == render_of(
            raw.take(if cx <= raw.len() { cx as int } else { raw.len() as int }),
        ),
    decreases raw.len(),
{
    if cx >= raw.len() {
        assert(raw.take(raw.len() as int) =~= raw);
        assert(render_of(raw).take(render_of(raw).len() as int) =~= render_of(raw));
    } else {
        let before = raw.drop_last();
        assert(raw.take(cx as int) =~= before.take(cx as int));
        lemma_cursor_matches_render(before, cx);
        lemma_render_extends(raw);
        let n = render_col(before, cx) as int;
        assert(render_of(raw).take(n) =~= render_of(before).take(n));
    }
}

/// The characters of `s`, one by one.
pub fn str_chars(s: &str) -> (r: Vec<char>)
    ensures
        r@ == s@,
{
    let mut out: Vec<char> = Vec::new();
    for c in it: s.chars()
        invariant
            out@ == it.seq().take(it.index() as int),
    {
        out.push(c);
    }
    out
}

/// The characters of `v` from index `from` up to, not including, index `to`.
pub fn copy_range(v: &Vec<char>, from: usize, to: usize) -> (r: Vec<char>)
    requires
        from <= to <= v@.len(),
    ensures
        r@ == v@.subrange(from as int, to as int),
{
    let mut out: Vec<char> = Vec::new();
    let mut i: usize = from;
    while i < to
        invariant
            from <= i <= to <= v@.len(),
            out@ == v@.subrange(from as int, i as int),
        decreases to - i,
    {
        out.push(v[i]);
        i += 1;
        assert(out@ =~= v@.subrange(from as int, i as int));
    }
    out
}

/// A line of text, with its rendered form kept beside it.
pub struct Row {
    chars: Vec<char>,
    render: Vec<char>,
}

impl View for Row {
    type V = Seq<char>;

    /// The raw characters of the line.
    closed spec fn view(&self) -> Seq<char> {
        self.chars@
    }
}

impl Row {
    #[verifier::type_invariant]
    spec fn render_matches(&self) -> bool {
        self.render@ == render_of(self.chars@)
    }

    /// The line holding the characters of `chars`.
    pub fn new(chars: String) -> (r: Row)
        ensures
            r@ == chars@,
    {
        Row::from_chars(str_chars(chars.as_str()))
    }

    /// The line holding the characters of `chars`.
    pub fn from_chars(chars: Vec<char>) -> (r: Row)
        ensures
            r@ == chars@,
    {
        let mut render: Vec<char> = Vec::new();
        let n = chars.len();
        let mut i: usize = 0;
        while i < n
            invariant
                n == chars@.len(),
                i <= n,
                render@ == render_of(chars@.take(i as int)),
            decreases n - i,
        {
            let c = chars[i];
            let ghost before = render@;
            assert(chars@.take(i + 1).drop_last() =~= chars@.take(i as int));
            if c == TAB_CHAR {
                let fill: usize = TAB_STOP - render.len() % TAB_STOP;
                let mut k: usize = 0;
                while k < fill
                    invariant
                        k <= fill,
                        fill == tab_fill(before.len()),
                        render@ == before + spaces(k as nat),
                    decreases fill - k,
                {
                    render.push(' ');
                    k += 1;
                    assert(render@ =~= before + spaces(k as nat));
                }
            } else {
                render.push(c);
            }
            i += 1;
        }
        assert(chars@.take(n as int) =~= chars@);
        Row { chars, render }
    }

    /// The number of raw characters in the line.
    pub fn len(&self) -> (r: usize)
        ensures
            r == self@.len(),
    {
        self.chars.len()
    }

    /// The number of rendered characters in the line.
    pub fn render_len(&self) -> (r: usize)
        ensures
            r == render_of(self@).len(),
    {
        proof {
            use_type_invariant(self);
        }
        self.render.len()
    }

    /// The raw characters of the line.
    pub fn raw(&self) -> (r: &Vec<char>)
        ensures
            r@ == self@,
    {
        &self.chars
    }

    /// The rendered characters of the line.
    pub fn rendered(&self) -> (r: &Vec<char>)
        ensures
            r@ == render_of(self@),
    {
        proof {
            use_type_invariant(self);
        }
        &self.render
    }

    /// The rendered column of raw column `cursor_x`: the width of the first
    /// `cursor_x` raw characters once tabs are expanded. A column past the end of
    /// the line counts as its end.
    pub fn cx_to_rx(&self, cursor_x: usize) -> (r: usize)
        ensures
            r == render_col(self@, cursor_x as nat),
    {
        proof {
            use_type_invariant(self);
        }
        let total = self.render.len();
        let n = if cursor_x < self.chars.len() {
            cursor_x
        } else {
            self.chars.len()
        };
        let mut rx: usize = 0;
        let mut i: usize = 0;
        while i < n
            invariant
                n <= self.chars@.len(),
                i <= n,
                total == render_of(self.chars@).len(),
                rx == render_of(self.chars@.take(i as int)).len(),
            decreases n - i,
        {
            let c = self.chars[i];
            proof {
                assert(self.chars@.take(i + 1).drop_last() =~= self.chars@.take(i as int));
                lemma_cursor_matches_render(self.chars@, (i + 1) as nat);
            }
            if c == TAB_CHAR {
                rx += (TAB_STOP - 1) - (rx % TAB_STOP);
            }
            rx += 1;
            i += 1;
        }
        proof {
            if cursor_x >= self.chars@.len() {
                assert(self.chars@.take(n as int) =~= self.chars@);
            }
        }
        rx
    }
}

} // verus!
