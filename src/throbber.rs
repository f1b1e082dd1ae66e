use vstd::prelude::*;
use vstd::string::*;

use crate::color::{
    Color,
    advance_color_index,
    color_at,
    next_color_index,
    palette_view,
    pick_color,
};
use crate::frame::Frame;

verus! {

/// Fixed settings of a throbber: the glyphs it cycles through, its palette
/// (none for plain output), and the delay between frames in milliseconds.
#[derive(Clone)]
pub struct ThrobberConfig {
    pub frames: Vec<&'static str>,
    pub colors: Option<Vec<Color>>,
    pub frame_delay: u64,
}

/// The default glyphs: a turning bar.
pub open spec fn default_frames() -> Seq<Seq<char>> {
    seq!["|"@, "/"@, "-"@, "\\"@]
}

fn default_glyphs() -> (r: Vec<&'static str>)
    ensures
        r@.map_values(|g: &'static str| g@) == default_frames(),
{
    let r = vec!["|", "/", "-", "\\"];
    assert(r@.map_values(|g: &'static str| g@) =~= default_frames());
    r
}

impl Default for ThrobberConfig {
    fn default() -> (r: Self)
        ensures
            r.frames@.map_values(|g: &'static str| g@) == default_frames(),
            r.colors is Some,
            r.colors->0@ == seq![
                Color::Green,
                Color::Yellow,
                Color::Magenta,
                Color::Cyan,
                Color::Blue,
                Color::Red,
                Color::White,
                Color::DarkGrey,
            ],
            r.frame_delay == 150,
    {
        let colors = vec![
            Color::Green,
            Color::Yellow,
            Color::Magenta,
            Color::Cyan,
            Color::Blue,
            Color::Red,
            Color::White,
            Color::DarkGrey,
        ];
        ThrobberConfig { frames: default_glyphs(), colors: Some(colors), frame_delay: 150 }
    }
}

impl ThrobberConfig {
    /// The default settings without colors.
    pub fn no_colors() -> (r: Self)
        ensures
            r.frames@.map_values(|g: &'static str| g@) == default_frames(),
            r.colors is None,
            r.frame_delay == 150,
    {
        ThrobberConfig { frames: default_glyphs(), colors: None, frame_delay: 150 }
    }
}

/// The mathematical state of a throbber.
pub ghost struct ThrobberView {
    pub frame_index: usize,
    pub color_index: usize,
    pub running: bool,
    pub message: Seq<char>,
}

/// The live state of one throbber.
pub struct ThrobberState {
    pub frame_index: usize,
    pub color_index: usize,
    pub running: bool,
    pub message: String,
}

impl View for ThrobberState {
    type V = ThrobberView;

    open spec fn view(&self) -> ThrobberView {
        ThrobberView {
            frame_index: self.frame_index,
            color_index: self.color_index,
            running: self.running,
            message: self.message@,
        }
    }
}

/// The line a stopped throbber leaves: a check mark (success) or a cross,
/// a space, and the message.
pub open spec fn stop_line(success: bool, message: Seq<char>) -> Seq<char> {
    seq![if success { '\u{2713}' } else { '\u{2717}' }, ' '] + message
}

impl ThrobberView {
    /// `start()`: a throbber that is not running starts at its first frame
    /// and first color; a running one is left as it is.
    pub open spec fn start(self) -> ThrobberView {
        if self.running {
            self
        } else {
            ThrobberView { running: true, frame_index: 0, color_index: 0, ..self }
        }
    }

    /// Stopping: the throbber no longer runs.
    pub open spec fn stop(self) -> ThrobberView {
        ThrobberView { running: false, ..self }
    }

    /// One animation tick over `frame_count` glyphs: a running throbber moves
    /// to the next glyph and the next color; a stopped one is left as it is.
    pub open spec fn tick(self, frame_count: nat, palette: Option<Seq<Color>>) -> ThrobberView {
        if !self.running {
            self
        } else {
            ThrobberView {
                frame_index: ((self.frame_index + 1) % (frame_count as int)) as usize,
                color_index: next_color_index(palette, self.color_index as int) as usize,
                ..self
            }
        }
    }

    /// `k` animation ticks.
    pub open spec fn ticks(self, frame_count: nat, palette: Option<Seq<Color>>, k: nat) -> ThrobberView
        decreases k,
    {
        if k == 0 {
            self
        } else {
            self.ticks(frame_count, palette, (k - 1) as nat).tick(frame_count, palette)
        }
    }

    /// The line a running throbber shows: its glyph, a space, its message.
    pub open spec fn line(self, frames: Seq<Seq<char>>) -> Seq<char> {
        frames[self.frame_index as int] + seq![' '] + self.message
    }
}

/// After `start()` on a throbber that is not running and `k` animation ticks over `frame_count` glyphs, a
/// throbber shows glyph `k mod frame_count`: the glyphs cycle with period
/// `frame_count`.
pub proof fn lemma_frames_cycle(
    v: ThrobberView,
    frame_count: nat,
    palette: Option<Seq<Color>>,
    k: nat,
)
    requires
        !v.running,
        0 < frame_count <= usize::MAX,
    ensures
        v.start().ticks(frame_count, palette, k).running,
        v.start().ticks(frame_count, palette, k).frame_index == k % frame_count,
    decreases k,
{
    if k > 0 {
        lemma_frames_cycle(v, frame_count, palette, (k - 1) as nat);
        let m = frame_count as int;
        let prev = (k - 1) as int % m;
        vstd::arithmetic::div_mod::lemma_add_mod_noop((k - 1) as int, 1, m);
        vstd::arithmetic::div_mod::lemma_mod_bound(prev + 1, m);
        if frame_count == 1 {
            vstd::arithmetic::div_mod::lemma_mod_bound(k as int, 1);
            vstd::arithmetic::div_mod::lemma_mod_bound(prev + 1, 1);
        } else {
            vstd::arithmetic::div_mod::lemma_small_mod(1, frame_count);
        }
        assert((prev + 1) % m == k as int % m);
    }
}

/// Once stopped, a throbber no longer animates: a tick changes nothing.
pub proof fn lemma_stopped_tick_inert(
    v: ThrobberView,
    frame_count: nat,
    palette: Option<Seq<Color>>,
)
    ensures
        !v.stop().running,
        v.stop().tick(frame_count, palette) == v.stop(),
{
}

impl ThrobberState {
    /// A throbber that is not running yet, with the message "Throbbing...".
    pub fn new() -> (r: Self)
        ensures
            r@ == (ThrobberView {
                frame_index: 0,
                color_index: 0,
                running: false,
                message: "Throbbing..."@,
            }),
    {
        ThrobberState {
            frame_index: 0,
            color_index: 0,
            running: false,
            message: String::from_str("Throbbing..."),
        }
    }

    /// Starts the animation from the first frame; no effect while running.
    pub fn start(&mut self)
        ensures
            final(self)@ == old(self)@.start(),
    {
        if !self.running {
            self.running = true;
            self.frame_index = 0;
            self.color_index = 0;
        }
    }

    /// Replaces the message.
    pub fn set_message(&mut self, msg: String)
        ensures
            final(self)@ == (ThrobberView { message: msg@, ..old(self)@ }),
    {
        self.message = msg;
    }

    /// Stops the animation.
    pub fn stop(&mut self)
        ensures
            final(self)@ == old(self)@.stop(),
    {
        self.running = false;
    }

    /// One animation tick. Returns whether the throbber is running (and a
    /// redraw is due); a stopped throbber is left unchanged.
    pub fn tick(&mut self, config: &ThrobberConfig) -> (r: bool)
        requires
            old(self).running ==> config.frames@.len() > 0,
        ensures
            final(self)@ == old(self)@.tick(config.frames@.len(), palette_view(&config.colors)),
            r == old(self).running,
            final(self).running ==> final(self).frame_index < config.frames@.len(),
    {
        if !self.running {
            return false;
        }
        self.frame_index = ((self.frame_index as u128 + 1) % (config.frames.len() as u128)) as usize;
        self.color_index = advance_color_index(&config.colors, self.color_index);
        true
    }

    /// A redraw: the frame to draw in the color at the palette cursor, or
    /// none once the throbber has stopped.
    pub fn redraw(&self, config: &ThrobberConfig) -> (r: Option<Frame>)
        requires
            self.running ==> self.frame_index < config.frames@.len(),
        ensures
            r is None <==> !self.running,
            r matches Some(f) ==> {
                &&& f.text@ == self@.line(config.frames@.map_values(|g: &'static str| g@))
                &&& f.color == color_at(palette_view(&config.colors), self.color_index as int)
                &&& !f.last
            },
    {
        if !self.running {
            return None;
        }
        let mut text = String::from_str(config.frames[self.frame_index]);
        proof {
            reveal_strlit(" ");
        }
        text.append(" ");
        text.append(self.message.as_str());
        assert(text@ =~= self@.line(config.frames@.map_values(|g: &'static str| g@)));
        let color = pick_color(&config.colors, self.color_index);
        Some(Frame { text, color, last: false })
    }

    /// The final line written when the throbber stops: a check mark in
    /// green on success, a cross in red otherwise.
    pub fn stop_frame(success: bool, msg: String) -> (f: Frame)
        ensures
            f.text@ == stop_line(success, msg@),
            f.color == Some(if success { Color::Green } else { Color::Red }),
            f.last,
    {
        let mut text = if success {
            String::from_str("\u{2713} ")
        } else {
            String::from_str("\u{2717} ")
        };
        proof {
            reveal_strlit("\u{2713} ");
            reveal_strlit("\u{2717} ");
        }
        text.append(msg.as_str());
        assert(text@ =~= stop_line(success, msg@));
        Frame {
            text,
            color: Some(
                if success {
                    Color::Green
                } else {
                    Color::Red
                },
            ),
            last: true,
        }
    }
}

} // verus!
