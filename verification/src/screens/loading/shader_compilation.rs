//! The shader compilation screen, shown until the render pipelines are ready.
use vstd::prelude::*;
use vstd::string::*;

verus! {

/// The platform the game is built for.
#[derive(Clone, Copy, Debug, PartialEq, Eq, Structural)]
pub enum Platform {
    Native,
    Web,
}

/// Number of render pipelines to wait for; tuned by hand per platform, one
/// fewer in release builds.
pub open spec fn spec_total_pipelines(platform: Platform, debug: bool) -> nat {
    let count: nat = match platform {
        Platform::Native => 7,
        Platform::Web => 5,
    };
    if debug {
        count
    } else {
        (count - 1) as nat
    }
}

pub fn total_pipelines(platform: Platform, debug: bool) -> (total: usize)
    ensures
        total == spec_total_pipelines(platform, debug),
{
    let count: usize = match platform {
        Platform::Native => 7,
        Platform::Web => 5,
    };
    if debug {
        count
    } else {
        count - 1
    }
}

/// The number of render pipelines that are ready.
#[derive(Clone, Copy, Debug, PartialEq, Eq, Structural)]
pub struct LoadedPipelineCount(pub usize);

impl LoadedPipelineCount {
    pub fn is_done(&self, total: usize) -> (done: bool)
        ensures
            done == (self.0 >= total),
    {
        self.0 >= total
    }

    /// Records the number of ready pipelines; returns whether it changed.
    pub fn update_loaded_pipeline_count(&mut self, count: usize) -> (changed: bool)
        ensures
            final(self).0 == count,
            changed == (old(self).0 != count),
    {
        if self.0 == count {
            return false;
        }
        self.0 = count;
        true
    }
}

/// The character of a decimal digit.
pub open spec fn digit_char(d: nat) -> char {
    if d == 0 {
        '0'
    } else if d == 1 {
        '1'
    } else if d == 2 {
        '2'
    } else if d == 3 {
        '3'
    } else if d == 4 {
        '4'
    } else if d == 5 {
        '5'
    } else if d == 6 {
        '6'
    } else if d == 7 {
        '7'
    } else if d == 8 {
        '8'
    } else {
        '9'
    }
}

/// The decimal notation of a number, without leading zeros.
pub open spec fn decimal(n: nat) -> Seq<char>
    decreases n,
{
    if n < 10 {
        seq![digit_char(n)]
    } else {
        decimal(n / 10) + seq![digit_char(n % 10)]
    }
}

fn digit_str(d: usize) -> (s: &'static str)
    requires
        d < 10,
    ensures
        s@ == seq![digit_char(d as nat)],
{
    proof {
        reveal_strlit("0");
        reveal_strlit("1");
        reveal_strlit("2");
        reveal_strlit("3");
        reveal_strlit("4");
        reveal_strlit("5");
        reveal_strlit("6");
        reveal_strlit("7");
        reveal_strlit("8");
        reveal_strlit("9");
    }
    if d == 0 {
        "0"
    } else if d == 1 {
        "1"
    } else if d == 2 {
        "2"
    } else if d == 3 {
        "3"
    } else if d == 4 {
        "4"
    } else if d == 5 {
        "5"
    } else if d == 6 {
        "6"
    } else if d == 7 {
        "7"
    } else if d == 8 {
        "8"
    } else {
        "9"
    }
}

/// Appends the decimal notation of `n`.
fn push_decimal(s: &mut String, n: usize)
    ensures
        final(s)@ == old(s)@ + decimal(n as nat),
    decreases n,
{
    if n >= 10 {
        push_decimal(s, n / 10);
    }
    s.append(digit_str(n % 10));
    assert(final(s)@ =~= old(s)@ + decimal(n as nat));
}

/// The text of the loading label: how many of the pipelines are ready.
pub fn update_loading_shaders_label(loaded: usize, total: usize) -> (text: String)
    ensures
        text@ == "Compiling shaders: "@ + decimal(loaded as nat) + " / "@ + decimal(total as nat),
{
    let mut text = String::from_str("Compiling shaders: ");
    push_decimal(&mut text, loaded);
    text.append(" / ");
    push_decimal(&mut text, total);
    text
}

} // verus!
