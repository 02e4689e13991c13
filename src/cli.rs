use vstd::prelude::*;

verus! {

/// The visual themes of the progress bars.
#[derive(Clone, Copy, Debug, PartialEq, Eq, Structural)]
pub enum CliTheme {
    Solid,
    Blocks,
    Circles,
    Diamonds,
    Shades,
    Vintage,
    Stars,
    Emoji,
    Moon,
}

impl Default for CliTheme {
    fn default() -> (r: Self)
        ensures
            r == CliTheme::Solid,
    {
        CliTheme::Solid
    }
}

impl CliTheme {
    /// The name of the theme as the command line spells it.
    pub fn name(&self) -> (r: &'static str)
        ensures
            r@ == match self {
                CliTheme::Solid => "solid"@,
                CliTheme::Blocks => "blocks"@,
                CliTheme::Circles => "circles"@,
                CliTheme::Diamonds => "diamonds"@,
                CliTheme::Shades => "shades"@,
                CliTheme::Vintage => "vintage"@,
                CliTheme::Stars => "stars"@,
                CliTheme::Emoji => "emoji"@,
                CliTheme::Moon => "moon"@,
            },
    {
        match self {
            CliTheme::Solid => "solid",
            CliTheme::Blocks => "blocks",
            CliTheme::Circles => "circles",
            CliTheme::Diamonds => "diamonds",
            CliTheme::Shades => "shades",
            CliTheme::Vintage => "vintage",
            CliTheme::Stars => "stars",
            CliTheme::Emoji => "emoji",
            CliTheme::Moon => "moon",
        }
    }
}

/// The progress characters of a theme, filled first.
pub open spec fn theme_chars_spec(theme: CliTheme) -> Seq<char> {
    match theme {
        CliTheme::Solid => "\u{2588} "@,
        CliTheme::Blocks => "\u{2588}\u{2593}\u{2592}\u{2591}"@,
        CliTheme::Circles => "\u{25cf}\u{25cb}"@,
        CliTheme::Diamonds => "\u{25c6}\u{25c7}"@,
        CliTheme::Shades => "\u{2589}\u{2587}\u{2586}\u{2585}\u{2584}\u{2583}\u{2582}\u{2581}"@,
        CliTheme::Vintage => "#-"@,
        CliTheme::Stars => "\u{2605}\u{2606}"@,
        CliTheme::Emoji => "\u{1f60a}\u{1f642}\u{1f610}\u{1f641}\u{1f61e}"@,
        CliTheme::Moon => "\u{1f315}\u{1f316}\u{1f317}\u{1f318}\u{1f311}"@,
    }
}

/// The progress characters of a theme.
pub fn get_theme_chars(theme: &CliTheme) -> (r: &'static str)
    ensures
        r@ == theme_chars_spec(*theme),
{
    match theme {
        CliTheme::Solid => "\u{2588} ",
        CliTheme::Blocks => "\u{2588}\u{2593}\u{2592}\u{2591}",
        CliTheme::Circles => "\u{25cf}\u{25cb}",
        CliTheme::Diamonds => "\u{25c6}\u{25c7}",
        CliTheme::Shades => "\u{2589}\u{2587}\u{2586}\u{2585}\u{2584}\u{2583}\u{2582}\u{2581}",
        CliTheme::Vintage => "#-",
        CliTheme::Stars => "\u{2605}\u{2606}",
        CliTheme::Emoji => "\u{1f60a}\u{1f642}\u{1f610}\u{1f641}\u{1f61e}",
        CliTheme::Moon => "\u{1f315}\u{1f316}\u{1f317}\u{1f318}\u{1f311}",
    }
}

/// How a polled snapshot is rendered.
#[derive(Clone, Copy, Debug, PartialEq, Eq, Structural)]
pub enum OutputFormat {
    Text,
    Json,
    Csv,
}

impl Default for OutputFormat {
    fn default() -> (r: Self)
        ensures
            r == OutputFormat::Text,
    {
        OutputFormat::Text
    }
}

impl OutputFormat {
    /// The name of the format as the command line spells it.
    pub fn name(&self) -> (r: &'static str)
        ensures
            r@ == match self {
                OutputFormat::Text => "text"@,
                OutputFormat::Json => "json"@,
                OutputFormat::Csv => "csv"@,
            },
    {
        match self {
            OutputFormat::Text => "text",
            OutputFormat::Json => "json",
            OutputFormat::Csv => "csv",
        }
    }
}

/// Presentation settings of the command line.
#[derive(Clone, Copy, Debug, PartialEq, Eq, Structural)]
pub struct CliParams {
    pub theme: CliTheme,
    pub output: OutputFormat,
}

} // verus!
