//! The emulation log: what a log entry is, how its source is named, and the
//! rules by which entries are kept and by which they pause the emulator.
use vstd::prelude::*;

verus! {

#[derive(PartialEq, Eq, Structural, Clone, Copy, Debug)]
pub enum LogKind {
    Debug,
    Info,
    Warn,
    Error,
}

#[derive(PartialEq, Eq, Structural, Clone, Copy, Debug)]
pub enum LogSource {
    Emu,
    Arm9(u32),
    Arm7(u32),
    Arm9T(u16),
    Arm7T(u16),
    Bus7,
    Bus9,
    DMA9,
    DMA7,
    Cart,
    VramBank(u8),
    Spi,
}

/// A log entry that a part of the emulator leaves to its caller to make:
/// with `once`, only the first time that its text comes.
pub struct LogRequest {
    pub kind: LogKind,
    pub source: LogSource,
    pub content: String,
    pub once: bool,
}

pub struct Log {
    pub kind: LogKind,
    pub source: LogSource,
    pub content: String,
    pub timestamp: String,
}

/// The upper-case hexadecimal digit of `d`, for `d < 16`.
pub open spec fn hex_digit(d: int) -> char {
    if d < 10 {
        (('0' as int) + d) as char
    } else {
        (('A' as int) + d - 10) as char
    }
}

/// `v` in upper-case hexadecimal on exactly `width` digits (the low ones).
pub open spec fn hex_text(v: int, width: nat) -> Seq<char>
    decreases width,
{
    if width == 0 {
        Seq::empty()
    } else {
        hex_text(v / 16, (width - 1) as nat).push(hex_digit(v % 16))
    }
}

/// `v` in decimal, without leading zeros.
pub open spec fn decimal_text(v: nat) -> Seq<char>
    decreases v,
{
    if v < 10 {
        seq![(('0' as int) + v) as char]
    } else {
        decimal_text(v / 10).push((('0' as int) + v % 10) as char)
    }
}

/// The name of a log kind.
pub open spec fn kind_text(kind: LogKind) -> Seq<char> {
    match kind {
        LogKind::Debug => "Debug"@,
        LogKind::Info => "Info"@,
        LogKind::Warn => "Warn"@,
        LogKind::Error => "Error"@,
    }
}

/// The name of a log source; an instruction other than 0 follows the
/// processor's name in hexadecimal, in brackets.
pub open spec fn source_text(source: LogSource) -> Seq<char> {
    match source {
        LogSource::Emu => "Emu"@,
        LogSource::Arm9(i) => if i == 0 {
            "Arm9"@
        } else {
            "Arm9("@ + hex_text(i as int, 8) + ")"@
        },
        LogSource::Arm7(i) => if i == 0 {
            "Arm7"@
        } else {
            "Arm7("@ + hex_text(i as int, 8) + ")"@
        },
        LogSource::Arm9T(i) => if i == 0 {
            "Arm9T"@
        } else {
            "Arm9T("@ + hex_text(i as int, 4) + ")"@
        },
        LogSource::Arm7T(i) => if i == 0 {
            "Arm7T"@
        } else {
            "Arm7T("@ + hex_text(i as int, 4) + ")"@
        },
        LogSource::Bus7 => "Bus7"@,
        LogSource::Bus9 => "Bus9"@,
        LogSource::DMA9 => "DMA9"@,
        LogSource::DMA7 => "DMA7"@,
        LogSource::Cart => "Cart"@,
        LogSource::VramBank(id) => "VramBank("@ + decimal_text(id as nat) + ")"@,
        LogSource::Spi => "SPI"@,
    }
}

/// Appends one character to a string, by `String::push`, which std documents
/// as appending the character to the end of the string. The contract claims
/// exactly that and nothing about capacity.
#[verifier::external_body]
fn push_char(s: &mut String, c: char)
    ensures
        final(s)@ == old(s)@.push(c),
{
    s.push(c)
}

fn hex_digit_exec(d: u32) -> (c: char)
    requires
        d < 16,
    ensures
        c == hex_digit(d as int),
{
    let digits = ['0', '1', '2', '3', '4', '5', '6', '7', '8', '9', 'A', 'B', 'C', 'D', 'E', 'F'];
    proof {
        assert(digits@ == seq!['0', '1', '2', '3', '4', '5', '6', '7', '8', '9', 'A', 'B', 'C', 'D', 'E', 'F']);
    }
    digits[d as usize]
}

/// Appends the `width` low hexadecimal digits of `v`.
pub(crate) fn push_hex(s: &mut String, v: u32, width: u32)
    ensures
        final(s)@ == old(s)@ + hex_text(v as int, width as nat),
    decreases width,
{
    if width > 0 {
        push_hex(s, v / 16, width - 1);
        push_char(s, hex_digit_exec(v % 16));
        proof {
            assert(old(s)@ + hex_text(v as int, width as nat) =~= old(s)@ + hex_text(
                (v / 16) as int,
                (width - 1) as nat,
            ) + seq![hex_digit((v % 16) as int)]);
        }
    } else {
        assert(old(s)@ + hex_text(v as int, 0) =~= old(s)@);
    }
}

/// Appends `v` in decimal.
pub(crate) fn push_decimal(s: &mut String, v: u32)
    ensures
        final(s)@ == old(s)@ + decimal_text(v as nat),
    decreases v,
{
    let digits = ['0', '1', '2', '3', '4', '5', '6', '7', '8', '9'];
    proof {
        assert(digits@ == seq!['0', '1', '2', '3', '4', '5', '6', '7', '8', '9']);
    }
    if v >= 10 {
        push_decimal(s, v / 10);
    }
    push_char(s, digits[(v % 10) as usize]);
    proof {
        if v >= 10 {
            assert(old(s)@ + decimal_text(v as nat) =~= old(s)@ + decimal_text((v / 10) as nat)
                + seq![(('0' as int) + v % 10) as char]);
        } else {
            assert(old(s)@ + decimal_text(v as nat) =~= old(s)@ + seq![(('0' as int) + v) as char]);
        }
    }
}

impl LogKind {
    /// The name of the kind, as the log shows it.
    pub fn to_string(&self) -> (r: String)
        ensures
            r@ == kind_text(*self),
    {
        match self {
            LogKind::Debug => "Debug".to_owned(),
            LogKind::Info => "Info".to_owned(),
            LogKind::Warn => "Warn".to_owned(),
            LogKind::Error => "Error".to_owned(),
        }
    }
}

impl LogSource {
    /// The name of the source, as the log shows it.
    pub fn to_string(&self) -> (r: String)
        ensures
            r@ == source_text(*self),
    {
        match self {
            LogSource::Emu => "Emu".to_owned(),
            LogSource::Arm9(i) => {
                if *i == 0 {
                    "Arm9".to_owned()
                } else {
                    let mut s = "Arm9(".to_owned();
                    push_hex(&mut s, *i, 8);
                    push_char(&mut s, ')');
                    proof {
                        reveal_strlit(")");
                        assert(s@ =~= source_text(*self));
                    }
                    s
                }
            },
            LogSource::Arm7(i) => {
                if *i == 0 {
                    "Arm7".to_owned()
                } else {
                    let mut s = "Arm7(".to_owned();
                    push_hex(&mut s, *i, 8);
                    push_char(&mut s, ')');
                    proof {
                        reveal_strlit(")");
                        assert(s@ =~= source_text(*self));
                    }
                    s
                }
            },
            LogSource::Arm9T(i) => {
                if *i == 0 {
                    "Arm9T".to_owned()
                } else {
                    let mut s = "Arm9T(".to_owned();
                    push_hex(&mut s, *i as u32, 4);
                    push_char(&mut s, ')');
                    proof {
                        reveal_strlit(")");
                        assert(s@ =~= source_text(*self));
                    }
                    s
                }
            },
            LogSource::Arm7T(i) => {
                if *i == 0 {
                    "Arm7T".to_owned()
                } else {
                    let mut s = "Arm7T(".to_owned();
                    push_hex(&mut s, *i as u32, 4);
                    push_char(&mut s, ')');
                    proof {
                        reveal_strlit(")");
                        assert(s@ =~= source_text(*self));
                    }
                    s
                }
            },
            LogSource::Bus7 => "Bus7".to_owned(),
            LogSource::Bus9 => "Bus9".to_owned(),
            LogSource::DMA9 => "DMA9".to_owned(),
            LogSource::DMA7 => "DMA7".to_owned(),
            LogSource::Cart => "Cart".to_owned(),
            LogSource::VramBank(id) => {
                let mut s = "VramBank(".to_owned();
                push_decimal(&mut s, *id as u32);
                push_char(&mut s, ')');
                proof {
                    reveal_strlit(")");
                    assert(s@ =~= source_text(*self));
                }
                s
            },
            LogSource::Spi => "SPI".to_owned(),
        }
    }
}

/// The log, the contents already logged once, and the settings that decide
/// when logging pauses the emulator.
pub struct LogBook {
    pub logs: Vec<Log>,
    pub once_logs: Vec<String>,
    pub pause_on_warn: bool,
    pub pause_on_error: bool,
    pub has_error_to_show: bool,
}

/// Whether an entry of `kind` pauses the emulator under the given settings.
pub open spec fn pauses(kind: LogKind, pause_on_warn: bool, pause_on_error: bool) -> bool {
    (kind == LogKind::Warn && pause_on_warn) || (kind == LogKind::Error && pause_on_error)
}

impl LogBook {
    /// The contents already logged once.
    pub open spec fn once_contents(&self) -> Seq<Seq<char>> {
        self.once_logs@.map_values(|s: String| s@)
    }

    /// An empty log that never pauses.
    pub fn new() -> (r: Self)
        ensures
            r.logs@.len() == 0,
            r.once_logs@.len() == 0,
            r.once_contents().no_duplicates(),
            !r.pause_on_warn,
            !r.pause_on_error,
            !r.has_error_to_show,
    {
        LogBook {
            logs: Vec::new(),
            once_logs: Vec::new(),
            pause_on_warn: false,
            pause_on_error: false,
            has_error_to_show: false,
        }
    }

    /// Logs an entry. The result tells whether the emulator is to pause: a
    /// warning does when pausing on warnings is set, an error when pausing on
    /// errors is set. An error also leaves an error to show.
    pub fn push(&mut self, kind: LogKind, source: LogSource, content: String, timestamp: String) -> (pause: bool)
        ensures
            final(self).logs@ == old(self).logs@.push(Log { kind, source, content, timestamp }),
            pause == pauses(kind, old(self).pause_on_warn, old(self).pause_on_error),
            final(self).has_error_to_show == (old(self).has_error_to_show || kind == LogKind::Error),
            final(self).once_logs == old(self).once_logs,
            final(self).pause_on_warn == old(self).pause_on_warn,
            final(self).pause_on_error == old(self).pause_on_error,
    {
        let pause = (kind == LogKind::Warn && self.pause_on_warn) || (kind == LogKind::Error
            && self.pause_on_error);
        if kind == LogKind::Error {
            self.has_error_to_show = true;
        }
        self.logs.push(Log { kind, source, content, timestamp });
        pause
    }

    /// Whether `content` has already been logged once.
    pub fn seen_once(&self, content: &String) -> (r: bool)
        ensures
            r == self.once_contents().contains(content@),
    {
        let mut i: usize = 0;
        while i < self.once_logs.len()
            invariant
                i <= self.once_logs@.len(),
                forall|j: int| 0 <= j < i ==> self.once_logs@[j]@ != content@,
            decreases self.once_logs@.len() - i,
        {
            if self.once_logs[i].eq(content) {
                assert(self.once_contents()[i as int] == content@);
                return true;
            }
            i = i + 1;
        }
        proof {
            if self.once_contents().contains(content@) {
                let j = self.once_contents().index_of(content@);
                assert(self.once_logs@[j]@ == content@);
            }
        }
        false
    }

    /// Logs an entry only the first time that its content comes; later ones
    /// are dropped and do not pause.
    pub fn push_once(
        &mut self,
        kind: LogKind,
        source: LogSource,
        content: String,
        timestamp: String,
    ) -> (pause: bool)
        ensures
            old(self).once_contents().contains(content@) ==> {
                &&& !pause
                &&& final(self).logs@ == old(self).logs@
                &&& final(self).once_logs@ == old(self).once_logs@
                &&& final(self).has_error_to_show == old(self).has_error_to_show
            },
            !old(self).once_contents().contains(content@) ==> {
                &&& pause == pauses(kind, old(self).pause_on_warn, old(self).pause_on_error)
                &&& final(self).logs@ == old(self).logs@.push(
                    Log { kind, source, content, timestamp },
                )
                &&& final(self).once_contents() == old(self).once_contents().push(content@)
                &&& final(self).has_error_to_show == (old(self).has_error_to_show || kind
                    == LogKind::Error)
            },
            old(self).once_contents().no_duplicates() ==> final(self).once_contents().no_duplicates(),
            final(self).pause_on_warn == old(self).pause_on_warn,
            final(self).pause_on_error == old(self).pause_on_error,
    {
        if self.seen_once(&content) {
            return false;
        }
        self.once_logs.push(content.clone());
        proof {
            assert(self.once_contents() =~= old(self).once_contents().push(content@));
            if old(self).once_contents().no_duplicates() {
                let q = self.once_contents();
                let n = old(self).once_contents().len();
                assert forall|i: int, j: int| 0 <= i < q.len() && 0 <= j < q.len() && i != j implies q[i]
                    != q[j] by {
                    if i == n {
                        assert(old(self).once_contents()[j] == q[j]);
                    } else if j == n {
                        assert(old(self).once_contents()[i] == q[i]);
                    }
                }
            }
        }
        self.push(kind, source, content, timestamp)
    }
}

} // verus!
