use vstd::prelude::*;
use vstd::string::*;

use crate::color::{
    Color,
    advance_color_index,
    color_at,
    next_color_index,
    palette_view,
    pick_color,
};
use crate::frame::Frame;
use crate::text::{cells, decimal, push_cells, push_decimal};

verus! {

/// What a bar shows: known progress towards a total, or a block bouncing
/// along the track.
#[derive(Clone, Copy, Debug, PartialEq, Eq, Structural)]
pub enum BarMode {
    Determinate { current: u64, total: u64 },
    Indeterminate { position: usize, direction: i8 },
}

/// Fixed settings of a bar: its palette (none for plain output), the delay
/// between color changes in milliseconds, and the track's width in cells.
#[derive(Clone)]
pub struct BarConfig {
    pub colors: Option<Vec<Color>>,
    pub color_cycle_delay: u64,
    pub width: usize,
}

impl Default for BarConfig {
    fn default() -> (r: Self)
        ensures
            r.colors is Some,
            r.colors->0@ == seq![Color::Green, Color::Yellow, Color::Magenta, Color::Cyan],
            r.color_cycle_delay == 600,
            r.width == 40,
    {
        let colors = vec![Color::Green, Color::Yellow, Color::Magenta, Color::Cyan];
        BarConfig { colors: Some(colors), color_cycle_delay: 600, width: 40 }
    }
}

impl BarConfig {
    /// The default settings without colors.
    pub fn no_colors() -> (r: Self)
        ensures
            r.colors is None,
            r.color_cycle_delay == 600,
            r.width == 40,
    {
        BarConfig { colors: None, color_cycle_delay: 600, width: 40 }
    }
}

/// The mathematical state of a bar.
pub ghost struct BarView {
    pub mode: BarMode,
    pub finished: bool,
    pub message: Seq<char>,
    pub color_index: usize,
}

/// The live state of one bar.
pub struct BarState {
    pub mode: BarMode,
    pub finished: bool,
    pub message: String,
    pub color_index: usize,
}

impl View for BarState {
    type V = BarView;

    open spec fn view(&self) -> BarView {
        BarView {
            mode: self.mode,
            finished: self.finished,
            message: self.message@,
            color_index: self.color_index,
        }
    }
}

/// The length of the bouncing block beyond its first cell.
pub open spec fn bounce_width(width: int) -> int {
    width / 4
}

/// The furthest position the bouncing block reaches.
pub open spec fn bounce_limit(width: int) -> int {
    width - bounce_width(width)
}

/// A block position and direction that a bounce can reach: in range, moving
/// one cell, and moving forward at the near end unless the track leaves no
/// room to move.
pub open spec fn bounce_ok(position: int, direction: int, width: int) -> bool {
    &&& 0 <= position <= bounce_limit(width)
    &&& direction == 1 || direction == -1
    &&& position == 0 && bounce_limit(width) > 0 ==> direction == 1
}

/// One step of the bounce: move by `direction`; at or past the far end stop
/// there and turn back, on reaching the near end turn forward.
pub open spec fn bounce_step(position: int, direction: int, width: int) -> (int, int) {
    let limit = bounce_limit(width);
    let moved = position + direction;
    if moved < 0 || moved >= limit {
        (limit, -1)
    } else if moved == 0 {
        (0, 1)
    } else {
        (moved, direction)
    }
}

/// The status text a bar with an empty message takes at `current` of
/// `total`: each threshold of the ratio belongs to the higher bucket. A total
/// of zero counts as complete.
pub open spec fn canned_message(current: nat, total: nat) -> Seq<char> {
    if total == 0 || current >= total {
        "Complete!"@
    } else if 4 * current >= 3 * total {
        "Almost there..."@
    } else if 2 * current >= total {
        "Halfway done"@
    } else if 4 * current >= total {
        "Quarter done"@
    } else {
        "Working..."@
    }
}

/// `n / d` rounded to the nearest integer, halves up.
pub open spec fn round_div(n: nat, d: nat) -> nat
    recommends
        d > 0,
{
    n / d + if 2 * (n % d) >= d {
        1nat
    } else {
        0nat
    }
}

/// The number of filled cells of a determinate bar; a total of zero counts
/// as complete.
pub open spec fn filled_len(current: nat, total: nat, width: nat) -> nat {
    if total == 0 {
        width
    } else {
        round_div((if current <= total { current } else { total }) * width, total)
    }
}

/// The percentage a determinate bar shows; a total of zero counts as
/// complete.
pub open spec fn percent(current: nat, total: nat) -> nat {
    if total == 0 {
        100
    } else {
        round_div((if current <= total { current } else { total }) * 100, total)
    }
}

/// `[<track>] `
pub open spec fn bracketed(track: Seq<char>) -> Seq<char> {
    seq!['['] + track + seq![']', ' ']
}

/// The line of a determinate bar: the filled and blank cells, then the
/// percentage and the message.
pub open spec fn determinate_line(current: nat, total: nat, width: nat, message: Seq<char>) -> Seq<
    char,
> {
    let f = filled_len(current, total, width);
    bracketed(cells('=', f) + cells(' ', (width - f) as nat)) + decimal(percent(current, total))
        + seq!['%', ' '] + message
}

/// The track of an indeterminate bar: blank, with a run of `=` from
/// `position` for one cell more than the bounce width, cut at the track's end.
pub open spec fn bounce_track(position: nat, width: nat) -> Seq<char> {
    Seq::new(
        width,
        |i: int|
            if position <= i <= position + bounce_width(width as int) {
                '='
            } else {
                ' '
            },
    )
}

impl BarView {
    /// A fresh determinate bar at 0 of `total`.
    pub open spec fn fresh_determinate(total: u64) -> BarView {
        BarView {
            mode: BarMode::Determinate { current: 0, total },
            finished: false,
            message: Seq::empty(),
            color_index: 0,
        }
    }

    /// A bar's data are in range: progress does not pass its total, and the
    /// bouncing block stays on a track of `width` cells, moving one cell at a time.
    pub open spec fn wf(self, width: int) -> bool {
        match self.mode {
            BarMode::Determinate { current, total } => current <= total,
            BarMode::Indeterminate { position, direction } => bounce_ok(
                position as int,
                direction as int,
                width,
            ),
        }
    }

    /// Progress moves to `target` (clamped to the total) on a determinate bar
    /// that has not finished; an empty message is replaced by the status text,
    /// and reaching the total finishes the bar.
    pub open spec fn progress_to(self, target: int) -> BarView {
        match self.mode {
            BarMode::Determinate { current, total } => if self.finished {
                self
            } else {
                let c = if target <= total {
                    target
                } else {
                    total as int
                };
                BarView {
                    mode: BarMode::Determinate { current: c as u64, total },
                    finished: c == total,
                    message: if self.message.len() == 0 {
                        canned_message(c as nat, total as nat)
                    } else {
                        self.message
                    },
                    ..self
                }
            },
            BarMode::Indeterminate { .. } => self,
        }
    }

    /// `inc(delta)`.
    pub open spec fn inc(self, delta: u64) -> BarView {
        match self.mode {
            BarMode::Determinate { current, total } => self.progress_to(current + delta),
            BarMode::Indeterminate { .. } => self,
        }
    }

    /// `set_position(pos)`.
    pub open spec fn set_position(self, pos: u64) -> BarView {
        self.progress_to(pos as int)
    }

    /// `finish()`: a determinate bar jumps to its total; any bar is finished.
    pub open spec fn finish(self) -> BarView {
        BarView {
            mode: match self.mode {
                BarMode::Determinate { current, total } => BarMode::Determinate {
                    current: total,
                    total,
                },
                BarMode::Indeterminate { position, direction } => self.mode,
            },
            finished: true,
            ..self
        }
    }

    /// The line this bar shows on a track of `width` cells.
    pub open spec fn line(self, width: nat) -> Seq<char> {
        match self.mode {
            BarMode::Determinate { current, total } => determinate_line(
                current as nat,
                total as nat,
                width,
                self.message,
            ),
            BarMode::Indeterminate { position, .. } => bracketed(
                bounce_track(position as nat, width),
            ) + self.message,
        }
    }

    /// One animation tick: an unfinished indeterminate bar moves its block
    /// and asks for a redraw; any other bar is left as it is and the
    /// animation ends.
    pub open spec fn tick(self, width: int) -> (BarView, bool) {
        if self.finished {
            (self, false)
        } else {
            match self.mode {
                BarMode::Indeterminate { position, direction } => {
                    let (p, d) = bounce_step(position as int, direction as int, width);
                    (
                        BarView {
                            mode: BarMode::Indeterminate { position: p as usize, direction: d as i8 },
                            ..self
                        },
                        true,
                    )
                },
                BarMode::Determinate { .. } => (self, false),
            }
        }
    }
}

/// The sum of a sequence of increments.
pub open spec fn total_of(deltas: Seq<u64>) -> nat
    decreases deltas.len(),
{
    if deltas.len() == 0 {
        0
    } else {
        total_of(deltas.drop_last()) + deltas.last() as nat
    }
}

/// The bar after `inc` with each of `deltas` in turn.
pub open spec fn after_incs(v: BarView, deltas: Seq<u64>) -> BarView
    decreases deltas.len(),
{
    if deltas.len() == 0 {
        v
    } else {
        after_incs(v, deltas.drop_last()).inc(deltas.last())
    }
}

proof fn lemma_incs_follow_sum(total: u64, deltas: Seq<u64>)
    requires
        total_of(deltas) <= total,
    ensures
        after_incs(BarView::fresh_determinate(total), deltas).mode == (BarMode::Determinate {
            current: total_of(deltas) as u64,
            total,
        }),
        after_incs(BarView::fresh_determinate(total), deltas).finished ==> total_of(deltas)
            == total,
        deltas.len() > 0 && total_of(deltas) == total ==> after_incs(
            BarView::fresh_determinate(total),
            deltas,
        ).finished,
        deltas.len() == 0 ==> !after_incs(BarView::fresh_determinate(total), deltas).finished,
    decreases deltas.len(),
{
    if deltas.len() > 0 {
        lemma_incs_follow_sum(total, deltas.drop_last());
    }
}

/// Increments whose sum `S` stays within the total leave a fresh bar at
/// `min(S, total)` (that is, `S`), and the bar is finished exactly when it
/// has reached its total. (With a total of zero, the bar finishes on its
/// first increment, so at least one is made.)
pub proof fn lemma_inc_sequence(total: u64, deltas: Seq<u64>)
    requires
        total_of(deltas) <= total,
        deltas.len() > 0 || total > 0,
    ensures
        ({
            let v = after_incs(BarView::fresh_determinate(total), deltas);
            &&& v.mode == (BarMode::Determinate { current: total_of(deltas) as u64, total })
            &&& v.finished == (total_of(deltas) == total)
        }),
{
    lemma_incs_follow_sum(total, deltas);
}

proof fn lemma_canned_nonempty(current: nat, total: nat)
    ensures
        canned_message(current, total).len() > 0,
{
    reveal_strlit("Working...");
    reveal_strlit("Complete!");
    reveal_strlit("Almost there...");
    reveal_strlit("Halfway done");
    reveal_strlit("Quarter done");
}

/// Setting the same position twice leaves the bar as setting it once.
pub proof fn lemma_set_position_idempotent(v: BarView, pos: u64)
    ensures
        v.set_position(pos).set_position(pos) == v.set_position(pos),
{
    if let BarMode::Determinate { current, total } = v.mode {
        let c = if pos <= total {
            pos
        } else {
            total
        };
        lemma_canned_nonempty(c as nat, total as nat);
    }
}

/// A bar whose total is zero shows a full track and 100%.
pub proof fn lemma_zero_total_is_complete(v: BarView, width: nat)
    requires
        v.mode matches BarMode::Determinate { total, .. } && total == 0,
    ensures
        v.line(width) == bracketed(cells('=', width)) + decimal(100) + seq!['%', ' ']
            + v.message,
{
    assert(cells(' ', 0) =~= Seq::<char>::empty());
    assert(cells('=', width) + cells(' ', 0) =~= cells('=', width));
}

/// The bouncing block stays on the track: from any reachable position and
/// direction, a step lands in `0 ..= width - width / 4`, moves by
/// at most one cell, turns back exactly at the far end, turns forward exactly
/// at the near end, and otherwise moves on in the same direction.
pub proof fn lemma_bounce_in_range(position: int, direction: int, width: int)
    requires
        0 <= width,
        bounce_ok(position, direction, width),
    ensures
        ({
            let (p, d) = bounce_step(position, direction, width);
            &&& bounce_ok(p, d, width)
            &&& -1 <= p - position <= 1
            &&& p == bounce_limit(width) ==> d == -1
            &&& p == 0 && bounce_limit(width) > 0 ==> d == 1
            &&& 0 < p < bounce_limit(width) ==> d == direction && p == position + direction
        }),
{
}

/// Once a bar's message is not empty, progress never replaces it.
pub proof fn lemma_explicit_message_kept(v: BarView, delta: u64, pos: u64)
    requires
        v.message.len() > 0,
    ensures
        v.inc(delta).message == v.message,
        v.set_position(pos).message == v.message,
{
}

fn canned_text(current: u64, total: u64) -> (r: String)
    ensures
        r@ == canned_message(current as nat, total as nat),
{
    let c = current as u128;
    let t = total as u128;
    if total == 0 || c >= t {
        String::from_str("Complete!")
    } else if 4 * c >= 3 * t {
        String::from_str("Almost there...")
    } else if 2 * c >= t {
        String::from_str("Halfway done")
    } else if 4 * c >= t {
        String::from_str("Quarter done")
    } else {
        String::from_str("Working...")
    }
}

/// `n * scale / d` rounded, halves up, where `n <= d`.
fn scaled_round(n: u64, d: u64, scale: u64) -> (r: u64)
    requires
        d > 0,
        n <= d,
    ensures
        r as nat == round_div(n as nat * scale as nat, d as nat),
        r <= scale,
{
    proof {
        assert(n as nat * scale as nat <= 0xffff_ffff_ffff_ffff_ffff_ffff_ffff_ffff) by (nonlinear_arith)
            requires
                n <= 0xffff_ffff_ffff_ffff_u64,
                scale <= 0xffff_ffff_ffff_ffff_u64,
        ;
    }
    let prod: u128 = (n as u128) * (scale as u128);
    let q: u128 = prod / (d as u128);
    let rem: u128 = prod % (d as u128);
    proof {
        let pn = n as nat * scale as nat;
        assert(pn <= d as nat * scale as nat) by (nonlinear_arith)
            requires
                n <= d,
                pn == n as nat * scale as nat,
        ;
        vstd::arithmetic::div_mod::lemma_fundamental_div_mod(pn as int, d as int);
        vstd::arithmetic::div_mod::lemma_div_is_ordered(
            pn as int,
            (d as nat * scale as nat) as int,
            d as int,
        );
        vstd::arithmetic::div_mod::lemma_div_multiples_vanish(scale as int, d as int);
        if q == scale as u128 {
            assert(d as int * (pn as int / d as int) == d as nat * scale as nat);
            assert(rem == 0);
        }
    }
    if 2 * rem >= d as u128 {
        (q + 1) as u64
    } else {
        q as u64
    }
}

/// The cell counts of a determinate bar: filled cells and percentage.
fn determinate_counts(current: u64, total: u64, width: usize) -> (r: (usize, u64))
    ensures
        r.0 as nat == filled_len(current as nat, total as nat, width as nat),
        r.0 <= width,
        r.1 as nat == percent(current as nat, total as nat),
{
    if total == 0 {
        (width, 100)
    } else {
        let c = if current <= total {
            current
        } else {
            total
        };
        let f = scaled_round(c, total, width as u64);
        let p = scaled_round(c, total, 100);
        (f as usize, p)
    }
}

fn push_bracket_open(s: &mut String)
    ensures
        final(s)@ == old(s)@ + seq!['['],
{
    proof {
        reveal_strlit("[");
    }
    s.append("[");
    assert(final(s)@ =~= old(s)@ + seq!['[']);
}

fn push_bracket_close(s: &mut String)
    ensures
        final(s)@ == old(s)@ + seq![']', ' '],
{
    proof {
        reveal_strlit("] ");
    }
    s.append("] ");
    assert(final(s)@ =~= old(s)@ + seq![']', ' ']);
}

fn push_percent_sign(s: &mut String)
    ensures
        final(s)@ == old(s)@ + seq!['%', ' '],
{
    proof {
        reveal_strlit("% ");
    }
    s.append("% ");
    assert(final(s)@ =~= old(s)@ + seq!['%', ' ']);
}

/// Appends the track of an indeterminate bar.
fn push_bounce_track(s: &mut String, position: usize, width: usize)
    ensures
        final(s)@ == old(s)@ + bounce_track(position as nat, width as nat),
{
    let bw = width / 4;
    let ghost start = s@;
    let ghost track = bounce_track(position as nat, width as nat);
    let mut i: usize = 0;
    while i < width
        invariant
            i <= width,
            bw == bounce_width(width as int),
            track == bounce_track(position as nat, width as nat),
            s@ =~= start + track.subrange(0, i as int),
        decreases width - i,
    {
        let filled = position <= i && i - position <= bw;
        let ghost before = s@;
        push_cells(s, filled, 1);
        proof {
            assert(cells(if filled { '=' } else { ' ' }, 1) =~= seq![track[i as int]]);
            assert(track.subrange(0, i + 1) =~= track.subrange(0, i as int).push(track[i as int]));
        }
        i = i + 1;
    }
    assert(track.subrange(0, width as int) =~= track);
}

impl BarState {
    /// A determinate bar at 0 of `total`, with an empty message.
    pub fn new_determinate(total: u64) -> (r: Self)
        ensures
            r@ == BarView::fresh_determinate(total),
    {
        BarState {
            mode: BarMode::Determinate { current: 0, total },
            finished: false,
            message: String::new(),
            color_index: 0,
        }
    }

    /// An indeterminate bar with its block at the start, moving forward.
    pub fn new_indeterminate(message: String) -> (r: Self)
        ensures
            r@ == (BarView {
                mode: BarMode::Indeterminate { position: 0, direction: 1 },
                finished: false,
                message: message@,
                color_index: 0,
            }),
            forall|w: int| 0 <= w ==> #[trigger] r@.wf(w),
    {
        BarState {
            mode: BarMode::Indeterminate { position: 0, direction: 1 },
            finished: false,
            message,
            color_index: 0,
        }
    }

    fn progress_to(&mut self, target: u64)
        requires
            old(self).mode is Determinate,
        ensures
            final(self)@ == old(self)@.progress_to(target as int),
    {
        if !self.finished {
            if let BarMode::Determinate { current, total } = self.mode {
                let c = if target <= total {
                    target
                } else {
                    total
                };
                self.mode = BarMode::Determinate { current: c, total };
                if self.message.as_str().is_empty() {
                    self.message = canned_text(c, total);
                }
                if c == total {
                    self.finished = true;
                }
            }
        }
    }

    /// Advances a determinate bar by `delta`, stopping at its total.
    pub fn inc(&mut self, delta: u64)
        ensures
            final(self)@ == old(self)@.inc(delta),
            forall|w: int| #[trigger] old(self)@.wf(w) ==> final(self)@.wf(w),
    {
        if let BarMode::Determinate { current, total } = self.mode {
            self.progress_to(current.saturating_add(delta));
        }
    }

    /// Moves a determinate bar to `pos`, clamped to its total.
    pub fn set_position(&mut self, pos: u64)
        ensures
            final(self)@ == old(self)@.set_position(pos),
            forall|w: int| #[trigger] old(self)@.wf(w) ==> final(self)@.wf(w),
    {
        if let BarMode::Determinate { .. } = self.mode {
            self.progress_to(pos);
        }
    }

    /// Replaces the message.
    pub fn set_message(&mut self, msg: String)
        ensures
            final(self)@ == (BarView { message: msg@, ..old(self)@ }),
    {
        self.message = msg;
    }

    /// Finishes the bar, completing a determinate one.
    pub fn finish(&mut self)
        ensures
            final(self)@ == old(self)@.finish(),
            forall|w: int| #[trigger] old(self)@.wf(w) ==> final(self)@.wf(w),
    {
        if let BarMode::Determinate { current, total } = self.mode {
            self.mode = BarMode::Determinate { current: total, total };
        }
        self.finished = true;
    }

    /// Finishes the bar and replaces its message.
    pub fn finish_with_message(&mut self, msg: String)
        ensures
            final(self)@ == (BarView { message: msg@, ..old(self)@.finish() }),
            forall|w: int| #[trigger] old(self)@.wf(w) ==> final(self)@.wf(w),
    {
        self.finish();
        self.message = msg;
    }

    /// The line the bar shows on a track of `width` cells.
    pub fn render(&self, width: usize) -> (r: String)
        ensures
            r@ == self@.line(width as nat),
    {
        let mut s = String::new();
        push_bracket_open(&mut s);
        match self.mode {
            BarMode::Determinate { current, total } => {
                let (f, p) = determinate_counts(current, total, width);
                push_cells(&mut s, true, f);
                push_cells(&mut s, false, width - f);
                push_bracket_close(&mut s);
                push_decimal(&mut s, p);
                push_percent_sign(&mut s);
            },
            BarMode::Indeterminate { position, .. } => {
                push_bounce_track(&mut s, position, width);
                push_bracket_close(&mut s);
            },
        }
        s.append(self.message.as_str());
        assert(s@ =~= self@.line(width as nat));
        s
    }

    /// One animation tick on a track of `config.width` cells. Returns whether
    /// the animation goes on (and a redraw is due).
    pub fn tick(&mut self, config: &BarConfig) -> (r: bool)
        ensures
            (final(self)@, r) == old(self)@.tick(config.width as int),
            old(self)@.wf(config.width as int) ==> final(self)@.wf(config.width as int),
    {
        if self.finished {
            return false;
        }
        match self.mode {
            BarMode::Indeterminate { position, direction } => {
                let width = config.width;
                let limit = width - width / 4;
                let (p, d): (usize, i8) = if direction >= 0 {
                    let step = direction as usize;
                    if position >= limit || limit - position <= step {
                        (limit, -1)
                    } else if position + step == 0 {
                        (0, 1)
                    } else {
                        (position + step, direction)
                    }
                } else {
                    let step = (0i16 - direction as i16) as usize;
                    if position < step {
                        (limit, -1)
                    } else if position - step >= limit {
                        (limit, -1)
                    } else if position - step == 0 {
                        (0, 1)
                    } else {
                        (position - step, direction)
                    }
                };
                self.mode = BarMode::Indeterminate { position: p, direction: d };
                true
            },
            BarMode::Determinate { .. } => false,
        }
    }

    /// A redraw: the frame to draw now, in the color at the palette cursor.
    /// A finished bar yields its last frame; otherwise the cursor moves on.
    pub fn redraw(&mut self, config: &BarConfig) -> (f: Frame)
        ensures
            f.text@ == old(self)@.line(config.width as nat),
            f.color == color_at(palette_view(&config.colors), old(self).color_index as int),
            f.last == old(self).finished,
            final(self)@ == (if old(self).finished {
                old(self)@
            } else {
                BarView {
                    color_index: next_color_index(
                        palette_view(&config.colors),
                        old(self).color_index as int,
                    ) as usize,
                    ..old(self)@
                }
            }),
    {
        let text = self.render(config.width);
        let color = pick_color(&config.colors, self.color_index);
        let last = self.finished;
        if !last {
            self.color_index = advance_color_index(&config.colors, self.color_index);
        }
        Frame { text, color, last }
    }
}

} // verus!
