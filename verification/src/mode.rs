use vstd::prelude::*;

verus! {

/// Operating mode of the bot.
#[derive(Debug, Clone, Copy, PartialEq, Eq, Structural)]
pub enum Mode {
    /// Paper trading: all trades are simulated.
    Paper,
    /// Live trading: orders go to the real exchange.
    Live,
}

impl Default for Mode {
    fn default() -> (r: Self)
        ensures
            r == Mode::Paper,
    {
        Mode::Paper
    }
}

impl Mode {
    pub fn is_paper(self) -> (r: bool)
        ensures
            r == (self == Mode::Paper),
    {
        self == Mode::Paper
    }

    pub fn is_live(self) -> (r: bool)
        ensures
            r == (self == Mode::Live),
    {
        self == Mode::Live
    }

    /// Human-readable label.
    pub fn label(self) -> (r: &'static str)
        ensures
            self == Mode::Paper ==> r@ == "PAPER"@,
            self == Mode::Live ==> r@ == "LIVE"@,
    {
        match self {
            Mode::Paper => "PAPER",
            Mode::Live => "LIVE",
        }
    }

    /// The label as an owned string, as the mode is printed.
    pub fn display(self) -> (r: String)
        ensures
            self == Mode::Paper ==> r@ == "PAPER"@,
            self == Mode::Live ==> r@ == "LIVE"@,
    {
        String::from_str(self.label())
    }
}

/// Every mode is exactly one of paper and live, and the two labels differ.
pub proof fn lemma_mode_exclusive(m: Mode)
    ensures
        (m == Mode::Paper) != (m == Mode::Live),
        "PAPER"@ != "LIVE"@,
{
    reveal_strlit("PAPER");
    reveal_strlit("LIVE");
    assert("PAPER"@.len() != "LIVE"@.len());
}

} // verus!
