//! The decisions of the interactive sessions: what a typed line asks for,
//! how many generations were made, and where each one is written.
use vstd::prelude::*;
use crate::text::{decimal, decimal_reads_back, decimal_value, four_digit_counter, is_white_space, trim_removes_surrounding_white_space, format_decimal, format_decimal_width4, lowercase, to_lowercase, trim, trim_spec, zero_padded};

verus! {

/// What a typed line asks for.
#[derive(Debug)]
pub enum InputCommand {
    /// Nothing: the line is blank.
    Skip,
    /// End the session.
    Quit,
    /// Speak this text (the line without surrounding whitespace).
    Speak(String),
}

/// What the session does next.
#[derive(Debug)]
pub enum SessionAction {
    /// Prompt for the next line.
    Continue,
    /// End the session.
    Stop,
    /// Speak `text` and write the audio to `output_path`.
    Generate { text: String, output_path: String },
}

/// The words that end a session, once lower-cased.
pub open spec fn is_quit_word(word: Seq<char>) -> bool {
    ||| word == "quit"@
    ||| word == "exit"@
    ||| word == "q"@
}

/// A line with nothing but whitespace.
pub open spec fn is_blank_line(line: Seq<char>) -> bool {
    trim_spec(line).len() == 0
}

/// A line that ends the session: trimmed and lower-cased, it is a quit word.
pub open spec fn is_quit_line(line: Seq<char>) -> bool {
    !is_blank_line(line) && is_quit_word(lowercase(trim_spec(line)))
}

/// The file that the session with numbered outputs writes its `n`-th
/// generation to: "interactive_tts_" and `n` with at least four digits.
pub open spec fn numbered_output_name(n: nat) -> Seq<char> {
    "interactive_tts_"@ + zero_padded(decimal(n), 4) + ".wav"@
}

/// What a line asks for, given the line without surrounding whitespace
/// (`trimmed`) and that in lower case (`lowered`): nothing when `trimmed` is
/// empty, the end when `lowered` is "quit", "exit" or "q", and otherwise
/// speech of `trimmed`.
pub fn command_for(trimmed: &str, lowered: &str) -> (command: InputCommand)
    ensures
        trimmed@.len() == 0 ==> command is Skip,
        trimmed@.len() > 0 && is_quit_word(lowered@) ==> command is Quit,
        trimmed@.len() > 0 && !is_quit_word(lowered@) ==> (command matches InputCommand::Speak(
            text,
        ) && text@ == trimmed@),
{
    if trimmed.unicode_len() == 0 {
        return InputCommand::Skip;
    }
    let word = String::from_str(lowered);
    if word == String::from_str("quit") || word == String::from_str("exit") || word
        == String::from_str("q") {
        InputCommand::Quit
    } else {
        InputCommand::Speak(String::from_str(trimmed))
    }
}

/// What a typed line asks for: nothing when it is blank, the end when,
/// trimmed and lower-cased, it is "quit", "exit" or "q", and otherwise
/// speech of the trimmed line.
pub fn read_command(line: &str) -> (command: InputCommand)
    ensures
        is_blank_line(line@) ==> command is Skip,
        is_quit_line(line@) ==> command is Quit,
        !is_blank_line(line@) && !is_quit_line(line@) ==> (command matches InputCommand::Speak(
            text,
        ) && text@ == trim_spec(line@)),
{
    let trimmed = trim(line);
    if trimmed.unicode_len() == 0 {
        return InputCommand::Skip;
    }
    let lowered = to_lowercase(trimmed);
    command_for(trimmed, lowered.as_str())
}

/// The name of the file that the numbered session writes its `n`-th
/// generation to, as `format!("interactive_tts_{:04}.wav", n)` makes it.
pub fn numbered_output_path(n: usize) -> (path: String)
    ensures
        path@ == numbered_output_name(n as nat),
{
    let mut path = String::from_str("interactive_tts_");
    let digits = format_decimal_width4(n);
    path.append(digits.as_str());
    path.append(".wav");
    path
}

/// One step of the session that numbers its outputs: after `generated`
/// generations, a blank line continues, a quit line stops, and any other line
/// is spoken into the next numbered file, counting one more generation.
pub fn numbered_step(generated: usize, line: &str) -> (next: (usize, SessionAction))
    requires
        generated < usize::MAX,
    ensures
        is_blank_line(line@) ==> next.0 == generated && next.1 is Continue,
        is_quit_line(line@) ==> next.0 == generated && next.1 is Stop,
        !is_blank_line(line@) && !is_quit_line(line@) ==> {
            &&& next.0 == generated + 1
            &&& next.1 matches SessionAction::Generate { text, output_path }
            &&& text@ == trim_spec(line@)
            &&& output_path@ == numbered_output_name((generated + 1) as nat)
        },
{
    match read_command(line) {
        InputCommand::Skip => (generated, SessionAction::Continue),
        InputCommand::Quit => (generated, SessionAction::Stop),
        InputCommand::Speak(text) => {
            let count = generated + 1;
            (count, SessionAction::Generate { text, output_path: numbered_output_path(count) })
        },
    }
}

/// The number of generations after one more line of a session that has made
/// `count`: one more for a line that is neither blank nor a quit line.
pub open spec fn step_count(count: nat, line: Seq<char>) -> nat {
    if is_blank_line(line) || is_quit_line(line) {
        count
    } else {
        count + 1
    }
}

/// The number of generations after a session that has made `count` steps
/// through `lines`, one by one, until it is stopped by a quit line or the
/// lines run out.
pub open spec fn session_count(count: nat, lines: Seq<Seq<char>>) -> nat
    decreases lines.len(),
{
    if lines.len() == 0 || is_quit_line(lines[0]) {
        count
    } else {
        session_count(step_count(count, lines[0]), lines.drop_first())
    }
}

/// The number of lines in `lines` that are not blank.
pub open spec fn count_nonblank(lines: Seq<Seq<char>>) -> nat
    decreases lines.len(),
{
    if lines.len() == 0 {
        0
    } else {
        (if is_blank_line(lines[0]) { 0nat } else { 1nat }) + count_nonblank(lines.drop_first())
    }
}

/// Over a whole session, every line before the first quit line that is not
/// blank counts one generation (whether or not its speech was then made,
/// saved or played), and nothing after the quit line counts: starting from
/// `count`, the session ends with `count` plus the non-blank lines before the
/// first quit line (all of them when there is none).
pub proof fn session_count_law(count: nat, lines: Seq<Seq<char>>, first_quit: int)
    requires
        0 <= first_quit <= lines.len(),
        first_quit < lines.len() ==> is_quit_line(lines[first_quit]),
        forall|i: int| 0 <= i < first_quit ==> !is_quit_line(#[trigger] lines[i]),
    ensures
        session_count(count, lines) == count + count_nonblank(lines.take(first_quit)),
    decreases lines.len(),
{
    if lines.len() == 0 {
        assert(lines.take(first_quit) =~= Seq::<Seq<char>>::empty());
    } else if first_quit == 0 {
        assert(lines.take(first_quit) =~= Seq::<Seq<char>>::empty());
    } else {
        let rest = lines.drop_first();
        assert forall|i: int| 0 <= i < first_quit - 1 implies !is_quit_line(#[trigger] rest[i]) by {
            assert(rest[i] == lines[i + 1]);
        }
        if first_quit - 1 < rest.len() {
            assert(rest[first_quit - 1] == lines[first_quit]);
        }
        assert(!is_quit_line(lines[0]));
        session_count_law(step_count(count, lines[0]), rest, first_quit - 1);
        assert(lines.take(first_quit).drop_first() =~= rest.take(first_quit - 1));
    }
}

/// An interactive session: the speech engine, the voice it speaks with, and
/// the number of generations made so far.
pub struct InteractiveTTS<T, V> {
    tts: T,
    voice_style: V,
    output_counter: usize,
}

impl<T, V> InteractiveTTS<T, V> {
    /// The speech engine of the session.
    pub closed spec fn engine(&self) -> T {
        self.tts
    }

    /// The voice the session speaks with.
    pub closed spec fn voice(&self) -> V {
        self.voice_style
    }

    /// The number of generations made so far.
    pub closed spec fn generations(&self) -> nat {
        self.output_counter as nat
    }

    /// A session with `tts` and `voice_style` that has made no generation.
    pub fn from_parts(tts: T, voice_style: V) -> (session: Self)
        ensures
            session.engine() == tts,
            session.voice() == voice_style,
            session.generations() == 0,
    {
        InteractiveTTS { tts, voice_style, output_counter: 0 }
    }

    /// The number of generations made so far.
    pub fn output_counter(&self) -> (count: usize)
        ensures
            count == self.generations(),
    {
        self.output_counter
    }

    /// The engine, to speak with, and the voice to speak in; the session
    /// keeps its voice and count, and the engine as it is left.
    pub fn engine_and_voice(&mut self) -> (parts: (&mut T, &V))
        ensures
            *parts.0 == old(self).engine(),
            *parts.1 == old(self).voice(),
            final(self).engine() == *final(parts.0),
            final(self).voice() == old(self).voice(),
            final(self).generations() == old(self).generations(),
    {
        (&mut self.tts, &self.voice_style)
    }

    /// "Total generations: " and the number of generations made so far.
    pub fn get_stats(&self) -> (stats: String)
        ensures
            stats@ == "Total generations: "@ + decimal(self.generations()),
    {
        let mut stats = String::from_str("Total generations: ");
        let count = format_decimal(self.output_counter);
        stats.append(count.as_str());
        stats
    }

    /// One step of the session: a blank line continues, a quit line stops,
    /// and any other line counts one more generation and is spoken into
    /// "interactive_tts.wav". The engine and the voice stay as they are.
    pub fn step(&mut self, line: &str) -> (action: SessionAction)
        requires
            old(self).generations() < usize::MAX,
        ensures
            final(self).engine() == old(self).engine(),
            final(self).voice() == old(self).voice(),
            final(self).generations() == step_count(old(self).generations(), line@),
            action is Stop <==> is_quit_line(line@),
            is_blank_line(line@) ==> action is Continue,
            !is_blank_line(line@) && !is_quit_line(line@) ==> {
                &&& action matches SessionAction::Generate { text, output_path }
                &&& text@ == trim_spec(line@)
                &&& output_path@ == "interactive_tts.wav"@
            },
    {
        match read_command(line) {
            InputCommand::Skip => SessionAction::Continue,
            InputCommand::Quit => SessionAction::Stop,
            InputCommand::Speak(text) => {
                self.output_counter = self.output_counter + 1;
                SessionAction::Generate {
                    text,
                    output_path: String::from_str("interactive_tts.wav"),
                }
            },
        }
    }
}

/// Different generations of the numbered session are written to different
/// files.
pub proof fn numbered_outputs_distinct(n: nat, m: nat)
    requires
        n != m,
    ensures
        numbered_output_name(n) != numbered_output_name(m),
{
    reveal_strlit("interactive_tts_");
    reveal_strlit(".wav");
    let a = numbered_output_name(n);
    let b = numbered_output_name(m);
    let pa = zero_padded(decimal(n), 4);
    let pb = zero_padded(decimal(m), 4);
    decimal_reads_back(n, 4);
    decimal_reads_back(m, 4);
    assert(a.subrange(16, a.len() - 4) =~= pa);
    assert(b.subrange(16, b.len() - 4) =~= pb);
    if a == b {
        assert(decimal_value(pa) == decimal_value(pb));
    }
}

/// A line ends the session exactly when, trimmed, it is not empty and, lower
/// cased, it is one of the three words "quit", "exit" and "q"; any other
/// non-blank line is spoken.
pub proof fn quit_words_are_exactly_quit_exit_q(line: Seq<char>)
    ensures
        is_quit_line(line) <==> (trim_spec(line).len() > 0 && (lowercase(trim_spec(line))
            == "quit"@ || lowercase(trim_spec(line)) == "exit"@ || lowercase(trim_spec(line))
            == "q"@)),
        !is_blank_line(line) && !is_quit_line(line) ==> !(lowercase(trim_spec(line)) == "quit"@
            || lowercase(trim_spec(line)) == "exit"@ || lowercase(trim_spec(line)) == "q"@),
{
}

/// Whitespace around a word does not change what the line asks for: with
/// whitespace `p` before and `q` after a word `w` that neither starts nor
/// ends with whitespace, the line is a quit line exactly when `w` lower-cased
/// is "quit", "exit" or "q", and it is never blank.
pub proof fn surrounding_white_space_is_ignored(p: Seq<char>, w: Seq<char>, q: Seq<char>)
    requires
        forall|i: int| 0 <= i < p.len() ==> is_white_space(#[trigger] p[i]),
        forall|i: int| 0 <= i < q.len() ==> is_white_space(#[trigger] q[i]),
        w.len() > 0,
        !is_white_space(w[0]),
        !is_white_space(w.last()),
    ensures
        trim_spec(p + w + q) == w,
        !is_blank_line(p + w + q),
        is_quit_line(p + w + q) <==> (lowercase(w) == "quit"@ || lowercase(w) == "exit"@
            || lowercase(w) == "q"@),
{
    trim_removes_surrounding_white_space(p, w, q);
}

/// A line counts a generation exactly when it is neither blank nor a quit
/// line: a blank line or a quit line leaves the count as it is, whatever
/// whitespace surrounds the quit word, and any other line adds one.
pub proof fn only_spoken_lines_count(count: nat, line: Seq<char>)
    ensures
        is_quit_line(line) ==> step_count(count, line) == count,
        is_blank_line(line) ==> step_count(count, line) == count,
        !is_blank_line(line) && !is_quit_line(line) ==> step_count(count, line) == count + 1,
        step_count(count, line) == count || step_count(count, line) == count + 1,
{
}

/// Below 10000 generations, the numbered session's file for generation `n`
/// is "interactive_tts_", exactly four digits that read back as `n`, and
/// ".wav".
pub proof fn numbered_output_name_shape(n: nat)
    requires
        n < 10000,
    ensures
        numbered_output_name(n).len() == 24,
        numbered_output_name(n).subrange(0, 16) == "interactive_tts_"@,
        decimal_value(numbered_output_name(n).subrange(16, 20)) == n,
        numbered_output_name(n).subrange(20, 24) == ".wav"@,
{
    reveal_strlit("interactive_tts_");
    reveal_strlit(".wav");
    four_digit_counter(n);
    let a = numbered_output_name(n);
    assert(a.subrange(0, 16) =~= "interactive_tts_"@);
    assert(a.subrange(16, 20) =~= zero_padded(decimal(n), 4));
    assert(a.subrange(20, 24) =~= ".wav"@);
}

} // verus!
