//! The spinner shown while the agent works.

use vstd::prelude::*;

verus! {

/// Spinner animation style.
#[derive(Debug, Clone, Copy, PartialEq, Eq, Structural)]
pub enum SpinnerStyle {
    /// Twinkling stars (the default).
    Stellar,
    /// Braille dots turning.
    Braille,
    /// A filled braille block turning.
    Dots,
}

impl Default for SpinnerStyle {
    fn default() -> (r: Self)
        ensures
            r == SpinnerStyle::Stellar,
    {
        SpinnerStyle::Stellar
    }
}

/// The frames of each style.
pub open spec fn style_frames(s: SpinnerStyle) -> Seq<Seq<char>> {
    match s {
        SpinnerStyle::Stellar => seq!["✧"@, "✦"@, "✶"@, "✴"@, "✸"@, "✴"@, "✶"@, "✦"@],
        SpinnerStyle::Braille => seq!["⠋"@, "⠙"@, "⠹"@, "⠸"@, "⠼"@, "⠴"@, "⠦"@, "⠧"@, "⠇"@, "⠏"@],
        SpinnerStyle::Dots => seq!["⣾"@, "⣽"@, "⣻"@, "⢿"@, "⡿"@, "⣟"@, "⣯"@, "⣷"@],
    }
}

pub open spec fn strs_of(v: Seq<&str>) -> Seq<Seq<char>> {
    v.map_values(|s: &str| s@)
}

impl SpinnerStyle {
    /// The animation's frames.
    pub fn frames(self) -> (r: &'static [&'static str])
        ensures
            strs_of(r@) == style_frames(self),
    {
        match self {
            SpinnerStyle::Stellar => {
                let f: &'static [&'static str] = &["✧", "✦", "✶", "✴", "✸", "✴", "✶", "✦"];
                assert(strs_of(f@) =~= style_frames(self));
                f
            },
            SpinnerStyle::Braille => {
                let f: &'static [&'static str] = &["⠋", "⠙", "⠹", "⠸", "⠼", "⠴", "⠦", "⠧", "⠇", "⠏"];
                assert(strs_of(f@) =~= style_frames(self));
                f
            },
            SpinnerStyle::Dots => {
                let f: &'static [&'static str] = &["⣾", "⣽", "⣻", "⢿", "⡿", "⣟", "⣯", "⣷"];
                assert(strs_of(f@) =~= style_frames(self));
                f
            },
        }
    }

    /// The frame to show `elapsed_ms` milliseconds in: the frames advance
    /// every 120 ms and wrap around.
    pub fn frame_at(self, elapsed_ms: u128) -> (r: &'static str)
        ensures
            r@ == style_frames(self)[((elapsed_ms / 120) % (style_frames(self).len() as u128)) as int],
    {
        let frames = self.frames();
        let n = frames.len() as u128;
        let idx = (elapsed_ms / 120 % n) as usize;
        frames[idx]
    }
}

} // verus!
