//! From Hack assembly source to the words of the program store.
//!
//! The source is handed to the `hack_assembler` crate, which answers
//! with binary text: one line of sixteen binary digits per instruction.
//! That text is read back into words here.

use vstd::prelude::*;
use vstd::arithmetic::power2::{lemma2_to64, lemma_pow2_unfold, pow2};
use vstd::string::StringSliceAdditionalSpecFns;
use crate::emulator::{HackEmulator, CPU};
use crate::memory::ADDRESSABLE_MEM_SIZE;
use crate::word::{from_bits, word_of};

verus! {

/// Why a program could not be brought into the program store.
#[derive(Debug, PartialEq, Eq)]
pub enum LoadError {
    /// The source holds a decimal number of more than nine digits behind
    /// an `@` or a `.`; the assembler is not asked.
    DecimalTooLong,
    /// The assembler refused the source; this is its report.
    Assembly(String),
    /// The binary text is not made of lines of sixteen binary digits.
    MalformedBinary,
    /// The program has more words than the program store.
    ProgramTooLarge,
}

/// Bytes in a line of binary text: sixteen digits and a line feed.
pub const LINE_BYTES: usize = 17;

/// Decimal digits that the assembler is trusted to read in one number.
pub const MAX_DECIMAL_DIGITS: usize = 9;

/// An ASCII decimal digit.
pub open spec fn is_decimal_digit(b: u8) -> bool {
    0x30 <= b <= 0x39
}

/// The bytes behind which the assembler reads a decimal number: `@` and `.`.
pub open spec fn starts_number(b: u8) -> bool {
    b == 0x40 || b == 0x2E
}

/// The number of consecutive decimal digits that `bytes` holds from index `i` on.
pub open spec fn digits_from(bytes: Seq<u8>, i: int) -> nat
    decreases bytes.len() - i,
{
    if 0 <= i < bytes.len() && is_decimal_digit(bytes[i]) {
        1 + digits_from(bytes, i + 1)
    } else {
        0
    }
}

/// No `@` and no `.` in `bytes` is followed by more than nine decimal digits.
pub open spec fn decimals_fit(bytes: Seq<u8>) -> bool {
    forall|i: int|
        0 <= i < bytes.len() && starts_number(#[trigger] bytes[i]) ==> digits_from(bytes, i + 1)
            <= MAX_DECIMAL_DIGITS
}

/// Line `k` of `bytes` cut into lines of seventeen bytes.
pub open spec fn line(bytes: Seq<u8>, k: int) -> Seq<u8> {
    bytes.subrange(LINE_BYTES * k, LINE_BYTES * k + LINE_BYTES)
}

/// Sixteen binary digits and a line feed.
pub open spec fn is_binary_line(l: Seq<u8>) -> bool {
    &&& l.len() == LINE_BYTES
    &&& forall|j: int| 0 <= j < 16 ==> #[trigger] l[j] == 0x30 || l[j] == 0x31
    &&& l[16] == 0x0A
}

/// Binary text: nothing but lines of sixteen binary digits, each ended
/// by a line feed.
pub open spec fn is_binary_text(bytes: Seq<u8>) -> bool {
    &&& bytes.len() % (LINE_BYTES as nat) == 0
    &&& forall|k: int| 0 <= k < bytes.len() / (LINE_BYTES as nat) ==> is_binary_line(#[trigger] line(bytes, k))
}

/// The number that the first `n` digits of the line `l` spell, most
/// significant digit first.
pub open spec fn line_value(l: Seq<u8>, n: nat) -> nat
    decreases n,
{
    if n == 0 {
        0
    } else {
        (2 * line_value(l, (n - 1) as nat) + (l[n - 1] - 0x30)) as nat
    }
}

/// The words that binary text spells, one per line.
pub open spec fn binary_words(bytes: Seq<u8>) -> Seq<i16> {
    Seq::new(
        bytes.len() / (LINE_BYTES as nat),
        |k: int| word_of(line_value(line(bytes, k), 16) as u16),
    )
}

/// What `hack_assembler::assemble` answers to the source `source`: the
/// binary text, or its error report.
pub uninterp spec fn assembled(source: Seq<char>) -> Result<Seq<char>, Seq<char>>;

/// Calls `hack_assembler::assemble`. Trusted, not proved: the call
/// returns, and what it returns depends on the source text alone.
/// The one place where the assembler can panic is its parser for whole
/// decimal numbers, which unwraps the digits' value as a `usize`; it
/// runs right behind an `@` and behind the `.` of a variable name. Nine
/// digits fit a `usize` on every machine.
#[verifier::external_body]
fn assemble(source: &str) -> (r: Result<String, String>)
    requires
        decimals_fit(source.spec_bytes()),
    ensures
        match r {
            Ok(text) => assembled(source@) == Ok::<Seq<char>, Seq<char>>(text@),
            Err(report) => assembled(source@) == Err::<Seq<char>, Seq<char>>(report@),
        },
{
    hack_assembler::assemble(source)
}

/// Whether no `@` and no `.` in `source` is followed by more than nine
/// decimal digits.
pub fn check_decimals(source: &[u8]) -> (ok: bool)
    ensures
        ok == decimals_fit(source@),
{
    let mut i: usize = source.len();
    let mut run: usize = 0;
    while i > 0
        invariant
            i <= source@.len(),
            run <= source@.len() - i,
            run == digits_from(source@, i as int),
            forall|m: int|
                i <= m < source@.len() && starts_number(#[trigger] source@[m]) ==> digits_from(
                    source@,
                    m + 1,
                ) <= MAX_DECIMAL_DIGITS,
        decreases i,
    {
        i = i - 1;
        let c: u8 = source[i];
        if c == 0x40 || c == 0x2E {
            if run > MAX_DECIMAL_DIGITS {
                return false;
            }
            run = 0;
        } else if 0x30 <= c && c <= 0x39 {
            run = run + 1;
        } else {
            run = 0;
        }
    }
    true
}

/// Reads binary text into words: line `k` becomes word `k`, its first
/// digit the most significant bit. Anything but lines of sixteen binary
/// digits, each ended by a line feed, is refused.
pub fn generate_binary(text: &[u8]) -> (r: Result<Vec<i16>, LoadError>)
    ensures
        is_binary_text(text@) ==> r.is_ok() && r.unwrap()@ == binary_words(text@),
        !is_binary_text(text@) ==> r.is_err() && r.unwrap_err() == LoadError::MalformedBinary,
{
    let n: usize = text.len();
    if n % LINE_BYTES != 0 {
        return Err(LoadError::MalformedBinary);
    }
    let lines: usize = n / LINE_BYTES;
    let mut binary: Vec<i16> = Vec::new();
    let mut k: usize = 0;
    while k < lines
        invariant
            n == text@.len(),
            n % LINE_BYTES == 0,
            lines == n / LINE_BYTES,
            k <= lines,
            binary@.len() == k,
            forall|i: int| 0 <= i < k ==> is_binary_line(#[trigger] line(text@, i)),
            forall|i: int|
                0 <= i < k ==> #[trigger] binary@[i] == word_of(
                    line_value(line(text@, i), 16) as u16,
                ),
        decreases lines - k,
    {
        let start: usize = k * LINE_BYTES;
        let ghost l: Seq<u8> = line(text@, k as int);
        let mut bits: u16 = 0;
        let mut j: usize = 0;
        proof {
            lemma2_to64();
        }
        while j < 16
            invariant
                n == text@.len(),
                start == k * LINE_BYTES,
                start + LINE_BYTES <= n,
                l == line(text@, k as int),
                k < n / LINE_BYTES,
                j <= 16,
                bits == line_value(l, j as nat),
                bits < pow2(j as nat),
                forall|jj: int| 0 <= jj < j ==> #[trigger] l[jj] == 0x30 || l[jj] == 0x31,
            decreases 16 - j,
        {
            let c: u8 = text[start + j];
            assert(c == l[j as int]);
            if c != 0x30 && c != 0x31 {
                assert(!is_binary_line(line(text@, k as int)));
                return Err(LoadError::MalformedBinary);
            }
            proof {
                lemma_pow2_unfold((j + 1) as nat);
                lemma2_to64();
                vstd::arithmetic::power2::lemma_pow2_strictly_increases((j + 1) as nat, 17);
            }
            bits = bits * 2 + (c - 0x30) as u16;
            j = j + 1;
        }
        let end: u8 = text[start + 16];
        assert(end == l[16]);
        if end != 0x0A {
            assert(!is_binary_line(line(text@, k as int)));
            return Err(LoadError::MalformedBinary);
        }
        binary.push(from_bits(bits));
        k = k + 1;
    }
    assert(binary@ =~= binary_words(text@));
    Ok(binary)
}

/// Reads the assembler's answer: hands its report on where it refused
/// the source, else reads its binary text into words.
pub fn read_assembly(answer: Result<String, String>) -> (r: Result<Vec<i16>, LoadError>)
    ensures
        match answer {
            Err(report) => r.is_err() && r.unwrap_err() == LoadError::Assembly(report),
            Ok(text) => {
                &&& is_binary_text(vstd::utf8::encode_utf8(text@)) ==> r.is_ok() && r.unwrap()@
                    == binary_words(vstd::utf8::encode_utf8(text@))
                &&& !is_binary_text(vstd::utf8::encode_utf8(text@)) ==> r.is_err()
                    && r.unwrap_err() == LoadError::MalformedBinary
            },
        },
{
    match answer {
        Err(report) => Err(LoadError::Assembly(report)),
        Ok(text) => generate_binary(text.as_str().as_bytes()),
    }
}

/// Assembles `source` into the words of a program. A source with a
/// decimal number of more than nine digits behind an `@` or a `.` is
/// refused before the assembler sees it.
pub fn assemble_program(source: &str) -> (r: Result<Vec<i16>, LoadError>)
    ensures
        !decimals_fit(source.spec_bytes()) ==> r.is_err() && r.unwrap_err()
            == LoadError::DecimalTooLong,
        decimals_fit(source.spec_bytes()) ==> match assembled(source@) {
            Err(report) => r.is_err() && r.unwrap_err() is Assembly && r.unwrap_err()->Assembly_0@
                == report,
            Ok(text) => {
                &&& is_binary_text(vstd::utf8::encode_utf8(text)) ==> r.is_ok() && r.unwrap()@
                    == binary_words(vstd::utf8::encode_utf8(text))
                &&& !is_binary_text(vstd::utf8::encode_utf8(text)) ==> r.is_err()
                    && r.unwrap_err() == LoadError::MalformedBinary
            },
        },
{
    if !check_decimals(source.as_bytes()) {
        return Err(LoadError::DecimalTooLong);
    }
    read_assembly(assemble(source))
}

impl HackEmulator {
    /// Loads the program that the binary text `text` spells. Where the
    /// text is malformed or the program too large, nothing changes.
    pub fn load_binary(&mut self, text: &[u8]) -> (r: Result<(), LoadError>)
        ensures
            is_binary_text(text@) && binary_words(text@).len() <= ADDRESSABLE_MEM_SIZE ==> r.is_ok()
                && final(self)@ == old(self)@.load(binary_words(text@)),
            is_binary_text(text@) && binary_words(text@).len() > ADDRESSABLE_MEM_SIZE
                ==> r.is_err() && r.unwrap_err() == LoadError::ProgramTooLarge && final(self)@
                == old(self)@,
            !is_binary_text(text@) ==> r.is_err() && r.unwrap_err() == LoadError::MalformedBinary
                && final(self)@ == old(self)@,
            final(self)@.wf(),
    {
        match generate_binary(text) {
            Ok(binary) => self.load_words(binary),
            Err(e) => {
                // Nothing was touched; reading the registers recalls that
                // the machine is well-formed.
                let _registers: CPU = self.cpu();
                Err(e)
            },
        }
    }

    /// Loads the words `binary`, or reports that they are too many.
    fn load_words(&mut self, binary: Vec<i16>) -> (r: Result<(), LoadError>)
        ensures
            binary@.len() <= ADDRESSABLE_MEM_SIZE ==> r.is_ok() && final(self)@ == old(self)@.load(
                binary@,
            ),
            binary@.len() > ADDRESSABLE_MEM_SIZE ==> r.is_err() && r.unwrap_err()
                == LoadError::ProgramTooLarge && final(self)@ == old(self)@,
            final(self)@.wf(),
    {
        match self.load(binary.as_slice()) {
            Ok(()) => Ok(()),
            Err(e) => Err(LoadError::ProgramTooLarge),
        }
    }

    /// loads a program written in hack assembly into rom. Where the
    /// source is refused or the program too large, nothing changes.
    pub fn load_rom_from_source(&mut self, source: &str) -> (r: Result<(), LoadError>)
        ensures
            !decimals_fit(source.spec_bytes()) ==> r.is_err() && r.unwrap_err()
                == LoadError::DecimalTooLong && final(self)@ == old(self)@,
            decimals_fit(source.spec_bytes()) ==> match assembled(source@) {
                Err(report) => r.is_err() && r.unwrap_err() is Assembly
                    && r.unwrap_err()->Assembly_0@ == report && final(self)@ == old(self)@,
                Ok(text) => {
                    let bytes = vstd::utf8::encode_utf8(text);
                    &&& !is_binary_text(bytes) ==> r.is_err() && r.unwrap_err()
                        == LoadError::MalformedBinary && final(self)@ == old(self)@
                    &&& is_binary_text(bytes) && binary_words(bytes).len() > ADDRESSABLE_MEM_SIZE
                        ==> r.is_err() && r.unwrap_err() == LoadError::ProgramTooLarge
                        && final(self)@ == old(self)@
                    &&& is_binary_text(bytes) && binary_words(bytes).len() <= ADDRESSABLE_MEM_SIZE
                        ==> r.is_ok() && final(self)@ == old(self)@.load(binary_words(bytes))
                },
            },
            final(self)@.wf(),
    {
        match assemble_program(source) {
            Ok(binary) => self.load_words(binary),
            Err(e) => {
                // Nothing was touched; reading the registers recalls that
                // the machine is well-formed.
                let _registers: CPU = self.cpu();
                Err(e)
            },
        }
    }
}

} // verus!
