//! The words of the failures.
//!
//! Every failure has a message, which `message` writes. Where a failure
//! holds an error of another library, the message ends with the words of
//! that error: such a message is open-ended. Its text is how it begins, and
//! what stands behind the text is what `to_string` gives for that error.

use crate::config::{ConfigError, ConfigFailure};
use crate::ctl_messages::{Opcode, OpcodeError};
use crate::errors::{
    CtlError, CtlFailure, SSLError, ServerError, ServerFailure, SslFailure, UserError,
    UserFailure,
};
use crate::json::{DocumentError, Problem};
use crate::text::{decimal, decimal_text, signed_decimal, signed_text};
use vstd::prelude::*;
use vstd::string::to_string_from_display_ensures;
use vstd::string::StrSliceExecFns;
use vstd::string::StringExecFns;

verus! {

/// Whether `message` is a message with this text: it begins with the
/// text, and is the text where the text is not open-ended.
pub open spec fn reads(message: Seq<char>, text: Seq<char>, open_ended: bool) -> bool {
    text.is_prefix_of(message) && (!open_ended ==> message == text)
}

/// What is written in front of a message is in front of its text.
pub proof fn lemma_reads_behind(head: Seq<char>, message: Seq<char>, text: Seq<char>, open_ended: bool)
    requires
        reads(message, text, open_ended),
    ensures
        reads(head + message, head + text, open_ended),
{
    assert((head + message).subrange(0, (head + text).len() as int) =~= head + text);
}

/// Begins a message with `head`, and goes on with `more`.
fn join(head: &str, more: &str) -> (r: String)
    ensures
        r@ == head@ + more@,
{
    let mut r = String::from_str(head);
    r.append(more);
    r
}

impl Opcode {
    /// The name of the opcode.
    pub open spec fn label(self) -> Seq<char> {
        match self {
            Opcode::Health => "Opcode::Health"@,
            Opcode::Reload => "Opcode::Reload"@,
        }
    }

    /// The name of the opcode.
    pub fn name(&self) -> (r: &'static str)
        ensures
            r@ == self.label(),
    {
        match self {
            Opcode::Health => "Opcode::Health",
            Opcode::Reload => "Opcode::Reload",
        }
    }
}

impl OpcodeError {
    /// The message of the failure.
    pub open spec fn text(self) -> Seq<char> {
        match self {
            OpcodeError::UnknownValue { raw } => "Encountered unknown Opcode '"@ + decimal_text(
                raw as nat,
            ) + "'"@,
        }
    }

    /// Writes the message of the failure.
    pub fn message(&self) -> (r: String)
        ensures
            r@ == self.text(),
    {
        match self {
            OpcodeError::UnknownValue { raw } => {
                let mut r = join("Encountered unknown Opcode '", decimal(*raw as u64).as_str());
                r.append("'");
                r
            },
        }
    }
}

impl Problem {
    /// The text of the message of the problem. For a text that is no JSON
    /// the message is the words of the JSON reader alone, and has no text
    /// of its own.
    pub open spec fn text(self) -> Seq<char> {
        match self {
            Problem::Syntax => Seq::empty(),
            Problem::NotARecord => "expected a record"@,
            Problem::MissingField { field } => "missing field `"@ + field + "`"@,
            Problem::InvalidType { field } => "invalid type for field `"@ + field + "`"@,
            Problem::OutOfRange { field, value } => "invalid value "@ + decimal_text(value as nat)
                + " for field `"@ + field + "`"@,
            Problem::UnknownLevel { name } => "unknown log level `"@ + name + "`"@,
            Problem::InvalidUserId { key } => "invalid user identifier `"@ + key + "`"@,
        }
    }

    /// Whether the message goes on behind this text, with the words of an
    /// error of another library.
    pub open spec fn open_ended(self) -> bool {
        self is Syntax
    }
}

impl DocumentError {
    /// Whether `rest` is what the message goes on with behind its text: the
    /// words of the JSON reader where the text is no JSON, and nothing
    /// otherwise.
    pub open spec fn cause_says(self, rest: Seq<char>) -> bool {
        match self {
            DocumentError::Syntax { err } => words_of(&err, rest),
            _ => rest.len() == 0,
        }
    }

    /// Writes the message of the problem.
    pub fn message(&self) -> (r: String)
        ensures
            reads(r@, self@.text(), self@.open_ended()),
            self.cause_says(r@.skip(self@.text().len() as int)),
    {
        match self {
            DocumentError::Syntax { err } => end_saying(String::new(), err),
            DocumentError::NotARecord => String::from_str("expected a record"),
            DocumentError::MissingField { field } => {
                let mut r = join("missing field `", field.as_str());
                r.append("`");
                r
            },
            DocumentError::InvalidType { field } => {
                let mut r = join("invalid type for field `", field.as_str());
                r.append("`");
                r
            },
            DocumentError::OutOfRange { field, value } => {
                let mut r = join("invalid value ", decimal(*value).as_str());
                r.append(" for field `");
                r.append(field.as_str());
                r.append("`");
                r
            },
            DocumentError::UnknownLevel { name } => {
                let mut r = join("unknown log level `", name.as_str());
                r.append("`");
                r
            },
            DocumentError::InvalidUserId { key } => {
                let mut r = join("invalid user identifier `", key.as_str());
                r.append("`");
                r
            },
        }
    }
}

/// Whether `words` are the words of an error of another library: what
/// `to_string` gives for it.
pub open spec fn words_of<T: core::fmt::Display>(err: &T, words: Seq<char>) -> bool {
    exists|said: String| #[trigger] to_string_from_display_ensures::<T>(err, said) && said@ == words
}

/// Ends a message with the words of an error of another library: the
/// message is `head` with the words behind it, so it reads as the
/// open-ended text `head`.
fn end_with(head: String, words: String) -> (r: String)
    ensures
        r@ == head@ + words@,
        reads(r@, head@, true),
{
    let mut r = head;
    r.append(words.as_str());
    assert(r@.subrange(0, head@.len() as int) =~= head@);
    r
}

/// Ends a message with what an error of another library says of itself:
/// the message is `head`, and behind it the words of the error.
fn end_saying<T: core::fmt::Display>(head: String, err: &T) -> (r: String)
    ensures
        reads(r@, head@, true),
        words_of(err, r@.skip(head@.len() as int)),
{
    let words = err.to_string();
    let ghost said = words@;
    assert(words_of(err, said));
    let r = end_with(head, words);
    assert(r@.skip(head@.len() as int) =~= said);
    r
}

/// Goes on with the message of the failure that a failure holds: what
/// stands behind the text of the message is what stands behind the text of
/// the inner one.
fn go_on(head: String, inner: String, Ghost(text): Ghost<Seq<char>>, Ghost(open_ended): Ghost<bool>) -> (r: String)
    requires
        reads(inner@, text, open_ended),
    ensures
        reads(r@, head@ + text, open_ended),
        r@.skip((head@ + text).len() as int) == inner@.skip(text.len() as int),
{
    let mut r = head;
    proof {
        lemma_reads_behind(head@, inner@, text, open_ended);
    }
    r.append(inner.as_str());
    assert(r@.skip((head@ + text).len() as int) =~= inner@.skip(text.len() as int));
    r
}

/// Names the file at `path` behind `head`, in quotes, and goes on with a
/// colon.
fn of_file(head: &str, path: &str) -> (r: String)
    ensures
        r@ == head@ + path@ + "': "@,
{
    let mut r = join(head, path);
    r.append("': ");
    r
}

impl ConfigFailure {
    /// The message of the failure. A failure that holds another goes on
    /// with the message of that one.
    pub open spec fn text(self) -> Seq<char>
        decreases self,
    {
        match self {
            ConfigFailure::ReaderParse { problem } => problem.text(),
            ConfigFailure::WriterWrite => Seq::empty(),
            ConfigFailure::BytesParse { cause } => "Could not parse a Config from the given bytes: "@
                + (*cause).text(),
            ConfigFailure::BytesWrite { cause } => "Could not write the Config to raw bytes: "@ + (
            *cause).text(),
            ConfigFailure::StringParse {
                cause,
            } => "Could not parse a Config from the given string: "@ + (*cause).text(),
            ConfigFailure::Unicode => "Could not decode bytes as UTF-8: "@,
            ConfigFailure::StringWrite { cause } => "Could not write the Config to a string: "@ + (
            *cause).text(),
            ConfigFailure::FileCreate { path, .. } => "Could not create the given file '"@ + path
                + "': "@,
            ConfigFailure::FileOpen { path, .. } => "Could not open the given file '"@ + path + "': "@,
            ConfigFailure::FileParse {
                path,
                cause,
            } => "Could not parse a Config from the given file '"@ + path + "': "@ + (
            *cause).text(),
            ConfigFailure::FileWrite {
                path,
                cause,
            } => "Could not write the Config to the given file '"@ + path + "': "@ + (
            *cause).text(),
            ConfigFailure::RelativePath { field, delinquint } => "Path '"@ + delinquint
                + "' of field '"@ + field + "' is not absolute"@,
        }
    }

    /// Whether the message goes on behind this text, with the words of an
    /// error of another library.
    pub open spec fn open_ended(self) -> bool
        decreases self,
    {
        match self {
            ConfigFailure::ReaderParse { problem } => problem.open_ended(),
            ConfigFailure::WriterWrite => true,
            ConfigFailure::BytesParse { cause } => (*cause).open_ended(),
            ConfigFailure::BytesWrite { cause } => (*cause).open_ended(),
            ConfigFailure::StringParse { cause } => (*cause).open_ended(),
            ConfigFailure::Unicode => true,
            ConfigFailure::StringWrite { cause } => (*cause).open_ended(),
            ConfigFailure::FileCreate { .. } => true,
            ConfigFailure::FileOpen { .. } => true,
            ConfigFailure::FileParse { cause, .. } => (*cause).open_ended(),
            ConfigFailure::FileWrite { cause, .. } => (*cause).open_ended(),
            ConfigFailure::RelativePath { .. } => false,
        }
    }
}

impl ConfigError {
    /// Whether `rest` is what the message goes on with behind its text: the
    /// words of the error of another library that the failure holds, itself
    /// or in the failure inside it, and nothing where it holds none.
    pub open spec fn cause_says(self, rest: Seq<char>) -> bool
        decreases self,
    {
        match self {
            ConfigError::ReaderParseError { err } => err.cause_says(rest),
            ConfigError::WriterWriteError { err } => words_of(&err, rest),
            ConfigError::BytesParseError { err } => (*err).cause_says(rest),
            ConfigError::BytesWriteError { err } => (*err).cause_says(rest),
            ConfigError::StringParseError { err } => (*err).cause_says(rest),
            ConfigError::UnicodeError { err } => words_of(&err, rest),
            ConfigError::StringWriteError { err } => (*err).cause_says(rest),
            ConfigError::FileCreateError { err, .. } => words_of(&err, rest),
            ConfigError::FileOpenError { err, .. } => words_of(&err, rest),
            ConfigError::FileParseError { err, .. } => (*err).cause_says(rest),
            ConfigError::FileWriteError { err, .. } => (*err).cause_says(rest),
            ConfigError::RelativePathFound { .. } => rest.len() == 0,
        }
    }

    /// Writes the message of the failure.
    pub fn message(&self) -> (r: String)
        ensures
            reads(r@, self@.text(), self@.open_ended()),
            self.cause_says(r@.skip(self@.text().len() as int)),
        decreases self,
    {
        match self {
            ConfigError::ReaderParseError { err } => err.message(),
            ConfigError::WriterWriteError { err } => end_saying(String::new(), err),
            ConfigError::BytesParseError { err } => go_on(
                String::from_str("Could not parse a Config from the given bytes: "),
                err.message(),
                Ghost((**err)@.text()),
                Ghost((**err)@.open_ended()),
            ),
            ConfigError::BytesWriteError { err } => go_on(
                String::from_str("Could not write the Config to raw bytes: "),
                err.message(),
                Ghost((**err)@.text()),
                Ghost((**err)@.open_ended()),
            ),
            ConfigError::StringParseError { err } => go_on(
                String::from_str("Could not parse a Config from the given string: "),
                err.message(),
                Ghost((**err)@.text()),
                Ghost((**err)@.open_ended()),
            ),
            ConfigError::UnicodeError { err } => end_saying(
                String::from_str("Could not decode bytes as UTF-8: "),
                err,
            ),
            ConfigError::StringWriteError { err } => go_on(
                String::from_str("Could not write the Config to a string: "),
                err.message(),
                Ghost((**err)@.text()),
                Ghost((**err)@.open_ended()),
            ),
            ConfigError::FileCreateError { path, err } => end_saying(
                of_file("Could not create the given file '", path.as_str()),
                err,
            ),
            ConfigError::FileOpenError { path, err } => end_saying(
                of_file("Could not open the given file '", path.as_str()),
                err,
            ),
            ConfigError::FileParseError { path, err } => go_on(
                of_file("Could not parse a Config from the given file '", path.as_str()),
                err.message(),
                Ghost((**err)@.text()),
                Ghost((**err)@.open_ended()),
            ),
            ConfigError::FileWriteError { path, err } => go_on(
                of_file("Could not write the Config to the given file '", path.as_str()),
                err.message(),
                Ghost((**err)@.text()),
                Ghost((**err)@.open_ended()),
            ),
            ConfigError::RelativePathFound { field, delinquint } => {
                let mut r = join("Path '", delinquint.as_str());
                r.append("' of field '");
                r.append(field.as_str());
                r.append("' is not absolute");
                r
            },
        }
    }
}

/// The letters of what an octet of permissions permits: `r` for reading,
/// `w` for writing and `x` for executing.
pub open spec fn octet_letters(octet: u8) -> Seq<char> {
    (if octet & 0b100 != 0 {
        seq!['r']
    } else {
        Seq::empty()
    }) + (if octet & 0b010 != 0 {
        seq!['w']
    } else {
        Seq::empty()
    }) + (if octet & 0b001 != 0 {
        seq!['x']
    } else {
        Seq::empty()
    })
}

/// What an octet permits to `who`, as in `u+rw`; nothing where it permits
/// nothing.
pub open spec fn octet_part(who: char, octet: u8) -> Seq<char> {
    if octet_letters(octet).len() == 0 {
        Seq::empty()
    } else {
        seq![who, '+'] + octet_letters(octet)
    }
}

/// Two parts of a list, with a comma between them where there are both.
pub open spec fn listed(first: Seq<char>, second: Seq<char>) -> Seq<char> {
    if second.len() == 0 {
        first
    } else if first.len() == 0 {
        second
    } else {
        first + seq![','] + second
    }
}

/// The permissions of owner, group and others in letters, as in
/// `u+rw,g+r`.
pub open spec fn octets_display(octets: Seq<u8>) -> Seq<char> {
    listed(
        listed(octet_part('u', octets[0]), octet_part('g', octets[1])),
        octet_part('o', octets[2]),
    )
}

/// The permissions of owner, group and others in numbers, as in `640`.
pub open spec fn octets_debug(octets: Seq<u8>) -> Seq<char> {
    decimal_text(octets[0] as nat) + decimal_text(octets[1] as nat) + decimal_text(
        octets[2] as nat,
    )
}

/// Writes what an octet permits to `who`.
fn write_octet_part(who: &str, Ghost(letter): Ghost<char>, oct: u8) -> (r: String)
    requires
        who@ == seq![letter],
    ensures
        r@ == octet_part(letter, oct),
{
    let read: bool = (oct & 0b100) != 0;
    let write: bool = (oct & 0b010) != 0;
    let exec: bool = (oct & 0b001) != 0;
    let mut result = String::new();
    if read || write || exec {
        proof {
            reveal_strlit("+");
            reveal_strlit("r");
            reveal_strlit("w");
            reveal_strlit("x");
            reveal_strlit("");
        }
        result.append(who);
        result.append("+");
        result.append(if read {
            "r"
        } else {
            ""
        });
        result.append(if write {
            "w"
        } else {
            ""
        });
        result.append(if exec {
            "x"
        } else {
            ""
        });
        assert(result@ =~= octet_part(letter, oct));
    }
    result
}

/// Writes two parts of a list.
fn write_listed(first: String, second: String) -> (r: String)
    ensures
        r@ == listed(first@, second@),
{
    if second.as_str().unicode_len() == 0 {
        first
    } else if first.as_str().unicode_len() == 0 {
        second
    } else {
        let mut result = first;
        proof {
            reveal_strlit(",");
        }
        result.append(",");
        result.append(second.as_str());
        result
    }
}

/// What a message says of the special bits of a mode: nothing where none
/// is set, and their number otherwise.
pub open spec fn special_note(special: u8) -> Seq<char> {
    if special == 0 {
        Seq::empty()
    } else {
        " and special bits "@ + decimal_text(special as nat)
    }
}

/// Writes what a message says of the special bits of a mode.
fn write_special_note(special: u8) -> (r: String)
    ensures
        r@ == special_note(special),
{
    if special == 0 {
        String::new()
    } else {
        join(" and special bits ", decimal(special as u64).as_str())
    }
}

impl UserFailure {
    /// The message of the failure.
    pub open spec fn text(self) -> Seq<char> {
        match self {
            UserFailure::FileOpen { path, .. } => "Could not open file '"@ + path + "': "@,
            UserFailure::Metadata { path, .. } => "Could not get metadata of file '"@ + path + "': "@,
            UserFailure::IncorrectPermissions { path, got, expected, special } => "File '"@ + path
                + "' has insecure permissions set (got "@ + octets_display(got) + " (\""@
                + octets_debug(got) + "\")"@ + special_note(special) + ", expected "@
                + octets_display(expected) + " (\""@ + octets_debug(expected) + "\"))"@,
            UserFailure::FileParse { path, problem } => "Could not parse file '"@ + path + "': "@
                + problem.text(),
            UserFailure::ReservedUser { path, id } => "File '"@ + path
                + "' is missing reserved user with ID "@ + decimal_text(id as nat),
        }
    }

    /// Whether the message goes on behind this text, with the words of an
    /// error of another library.
    pub open spec fn open_ended(self) -> bool {
        match self {
            UserFailure::FileOpen { .. } => true,
            UserFailure::Metadata { .. } => true,
            UserFailure::IncorrectPermissions { .. } => false,
            UserFailure::FileParse { problem, .. } => problem.open_ended(),
            UserFailure::ReservedUser { .. } => false,
        }
    }
}

impl UserError {
    /// Whether `rest` is what the message goes on with behind its text: the
    /// words of the error of another library that the failure holds, and
    /// nothing where it holds none.
    pub open spec fn cause_says(self, rest: Seq<char>) -> bool {
        match self {
            UserError::FileOpenError { err, .. } => words_of(&err, rest),
            UserError::MetadataError { err, .. } => words_of(&err, rest),
            UserError::IncorrectPermissions { .. } => rest.len() == 0,
            UserError::FileParseError { err, .. } => err.cause_says(rest),
            UserError::ReservedUserError { .. } => rest.len() == 0,
        }
    }

    /// Writes the permissions of owner, group and others in numbers.
    pub fn octet_debug(octets: &[u8; 3]) -> (r: String)
        ensures
            r@ == octets_debug(octets@),
    {
        let mut r = decimal(octets[0] as u64);
        r.append(decimal(octets[1] as u64).as_str());
        r.append(decimal(octets[2] as u64).as_str());
        r
    }

    /// Writes the permissions of owner, group and others in letters:
    /// for each of the three that is permitted anything, who it is, a plus
    /// sign and what it is permitted, with commas between them.
    pub fn octet_display(octets: &[u8; 3]) -> (r: String)
        ensures
            r@ == octets_display(octets@),
    {
        proof {
            reveal_strlit("u");
            reveal_strlit("g");
            reveal_strlit("o");
            assert("u"@ =~= seq!['u']);
            assert("g"@ =~= seq!['g']);
            assert("o"@ =~= seq!['o']);
        }
        let owner = write_octet_part("u", Ghost('u'), octets[0]);
        let group = write_octet_part("g", Ghost('g'), octets[1]);
        let others = write_octet_part("o", Ghost('o'), octets[2]);
        write_listed(write_listed(owner, group), others)
    }

    /// Writes the message of the failure.
    pub fn message(&self) -> (r: String)
        ensures
            reads(r@, self@.text(), self@.open_ended()),
            self.cause_says(r@.skip(self@.text().len() as int)),
    {
        match self {
            UserError::FileOpenError { path, err } => end_saying(
                of_file("Could not open file '", path.as_str()),
                err,
            ),
            UserError::MetadataError { path, err } => end_saying(
                of_file("Could not get metadata of file '", path.as_str()),
                err,
            ),
            UserError::IncorrectPermissions { path, got, expected, special } => {
                let mut r = join("File '", path.as_str());
                r.append("' has insecure permissions set (got ");
                r.append(UserError::octet_display(got).as_str());
                r.append(" (\"");
                r.append(UserError::octet_debug(got).as_str());
                r.append("\")");
                r.append(write_special_note(*special).as_str());
                r.append(", expected ");
                r.append(UserError::octet_display(expected).as_str());
                r.append(" (\"");
                r.append(UserError::octet_debug(expected).as_str());
                r.append("\"))");
                r
            },
            UserError::FileParseError { path, err } => go_on(
                of_file("Could not parse file '", path.as_str()),
                err.message(),
                Ghost(err@.text()),
                Ghost(err@.open_ended()),
            ),
            UserError::ReservedUserError { path, id } => {
                let mut r = join("File '", path.as_str());
                r.append("' is missing reserved user with ID ");
                r.append(decimal(*id).as_str());
                r
            },
        }
    }
}

impl SslFailure {
    /// The message of the failure.
    pub open spec fn text(self) -> Seq<char> {
        match self {
            SslFailure::CertOpen { path, .. } => "Could not open certificate(s) file '"@ + path
                + "': "@,
            SslFailure::CertParse { path } => "Could not parse certificate(s) file '"@ + path
                + "': "@,
            SslFailure::KeyOpen { path, .. } => "Could not open server key file '"@ + path + "': "@,
            SslFailure::NoKeysFound { path } => "Key file '"@ + path
                + "' does not contain any keys"@,
            SslFailure::KeyParse { path } => "Could not parse key file '"@ + path + "': "@,
            SslFailure::CertAdd => "Failed to add user key to root store: "@,
            SslFailure::Config => "Failed to create server SSL/TLS config: "@,
        }
    }

    /// Whether the message goes on behind this text, with the words of an
    /// error of another library.
    pub open spec fn open_ended(self) -> bool {
        !(self is NoKeysFound)
    }
}

impl SSLError {
    /// Whether `rest` is what the message goes on with behind its text: the
    /// words of the error of another library that the failure holds, and
    /// nothing where it holds none.
    pub open spec fn cause_says(self, rest: Seq<char>) -> bool {
        match self {
            SSLError::CertOpenError { err, .. } => words_of(&err, rest),
            SSLError::CertParseError { err, .. } => words_of(&err, rest),
            SSLError::KeyOpenError { err, .. } => words_of(&err, rest),
            SSLError::NoKeysFound { .. } => rest.len() == 0,
            SSLError::KeyParseError { err, .. } => words_of(&err, rest),
            SSLError::CertAddError { err } => words_of(&err, rest),
            SSLError::ConfigError { err } => words_of(&err, rest),
        }
    }

    /// Writes the message of the failure.
    pub fn message(&self) -> (r: String)
        ensures
            reads(r@, self@.text(), self@.open_ended()),
            self.cause_says(r@.skip(self@.text().len() as int)),
    {
        match self {
            SSLError::CertOpenError { path, err } => end_saying(
                of_file("Could not open certificate(s) file '", path.as_str()),
                err,
            ),
            SSLError::CertParseError { path, err } => end_saying(
                of_file("Could not parse certificate(s) file '", path.as_str()),
                err,
            ),
            SSLError::KeyOpenError { path, err } => end_saying(
                of_file("Could not open server key file '", path.as_str()),
                err,
            ),
            SSLError::NoKeysFound { path } => {
                let mut r = join("Key file '", path.as_str());
                r.append("' does not contain any keys");
                r
            },
            SSLError::KeyParseError { path, err } => end_saying(
                of_file("Could not parse key file '", path.as_str()),
                err,
            ),
            SSLError::CertAddError { err } => end_saying(
                String::from_str("Failed to add user key to root store: "),
                err,
            ),
            SSLError::ConfigError { err } => end_saying(
                String::from_str("Failed to create server SSL/TLS config: "),
                err,
            ),
        }
    }
}

impl ServerFailure {
    /// The message of the failure. A failure that holds another goes on
    /// with the message of that one.
    pub open spec fn text(self) -> Seq<char> {
        match self {
            ServerFailure::ConfigParse { path, cause } => "Could not parse configuration file '"@
                + path + "': "@ + cause.text(),
            ServerFailure::UsersParse { path, cause } => "Could not parse users database '"@ + path
                + "': "@ + cause.text(),
            ServerFailure::SslConfig { cause } => "Could not initialize SSL config: "@
                + cause.text(),
            ServerFailure::ListenFds { .. } => "Could not get list of file descriptors: "@,
            ServerFailure::Select { .. } => "Could not select on sockets: "@,
            ServerFailure::CtlSocket { fd, .. } => "An error has occurred on the CTL socket ("@
                + signed_text(fd as int) + "): "@,
            ServerFailure::Fd { what, fd } => what + " file descriptor ("@ + signed_text(fd as int)
                + ") has become invalid"@,
            ServerFailure::StreamAccept { what, .. } => "Could not accept new connection on "@ + what
                + " stream: "@,
            ServerFailure::EmptyStream { what } => what + " stream is woken up but empty"@,
            ServerFailure::StreamRead { what, .. } => "Could not read from "@ + what + " stream: "@,
            ServerFailure::StreamWrite { what, .. } => "Could not write to "@ + what + " stream: "@,
            ServerFailure::UnknownOpcode { what, raw } => (OpcodeError::UnknownValue {
                raw,
            }).text(),
            ServerFailure::IncompleteLength { what, got } => "Incomplete config size on "@ + what
                + " stream (got "@ + decimal_text(got as nat) + " bytes, expected 2)"@,
            ServerFailure::IncorrectConfigSize { what, got, expected } => "Incorrect config size on "@
                + what + " stream (got "@ + decimal_text(got as nat) + " bytes, expected "@
                + decimal_text(expected as nat) + ")"@,
            ServerFailure::Reload { what, cause } => "Could not reload configuration from "@ + what
                + " stream: "@ + cause.text(),
            ServerFailure::UnexpectedEvent { what } => "Unexpected event on "@ + what + " stream"@,
            ServerFailure::WrongSource { what, got, expected } => "Configuration of '"@ + got
                + "' was given on "@ + what + " stream in place of that of '"@ + expected + "'"@,
        }
    }

    /// Whether the message goes on behind this text, with the words of an
    /// error of another library.
    pub open spec fn open_ended(self) -> bool {
        match self {
            ServerFailure::ConfigParse { cause, .. } => cause.open_ended(),
            ServerFailure::UsersParse { cause, .. } => cause.open_ended(),
            ServerFailure::SslConfig { cause } => cause.open_ended(),
            ServerFailure::ListenFds { .. } => true,
            ServerFailure::Select { .. } => true,
            ServerFailure::CtlSocket { .. } => true,
            ServerFailure::Fd { .. } => false,
            ServerFailure::StreamAccept { .. } => true,
            ServerFailure::EmptyStream { .. } => false,
            ServerFailure::StreamRead { .. } => true,
            ServerFailure::StreamWrite { .. } => true,
            ServerFailure::UnknownOpcode { .. } => false,
            ServerFailure::IncompleteLength { .. } => false,
            ServerFailure::IncorrectConfigSize { .. } => false,
            ServerFailure::Reload { cause, .. } => cause.open_ended(),
            ServerFailure::UnexpectedEvent { .. } => false,
            ServerFailure::WrongSource { .. } => false,
        }
    }
}

/// Names the channel `what` behind `head`, and goes on with `more`.
fn on_stream(head: &str, what: &str, more: &str) -> (r: String)
    ensures
        r@ == head@ + what@ + more@,
{
    let mut r = join(head, what);
    r.append(more);
    r
}

impl ServerError {
    /// Whether `rest` is what the message goes on with behind its text: the
    /// words of the error of another library that the failure holds, itself
    /// or in the failure inside it, and nothing where it holds none.
    pub open spec fn cause_says(self, rest: Seq<char>) -> bool {
        match self {
            ServerError::ConfigParseError { err, .. } => err.cause_says(rest),
            ServerError::UsersParseError { err, .. } => err.cause_says(rest),
            ServerError::SSLConfigError { err } => err.cause_says(rest),
            ServerError::ListenFdsFailure { err } => words_of(&err, rest),
            ServerError::SelectError { err } => words_of(&err, rest),
            ServerError::CtlSocketError { err, .. } => words_of(&err, rest),
            ServerError::StreamAcceptError { err, .. } => words_of(&err, rest),
            ServerError::StreamReadError { err, .. } => words_of(&err, rest),
            ServerError::StreamWriteError { err, .. } => words_of(&err, rest),
            ServerError::ReloadError { err, .. } => err.cause_says(rest),
            _ => rest.len() == 0,
        }
    }

    /// Writes the message of the failure.
    pub fn message(&self) -> (r: String)
        ensures
            reads(r@, self@.text(), self@.open_ended()),
            self.cause_says(r@.skip(self@.text().len() as int)),
    {
        match self {
            ServerError::ConfigParseError { path, err } => go_on(
                of_file("Could not parse configuration file '", path.as_str()),
                err.message(),
                Ghost(err@.text()),
                Ghost(err@.open_ended()),
            ),
            ServerError::UsersParseError { path, err } => go_on(
                of_file("Could not parse users database '", path.as_str()),
                err.message(),
                Ghost(err@.text()),
                Ghost(err@.open_ended()),
            ),
            ServerError::SSLConfigError { err } => go_on(
                String::from_str("Could not initialize SSL config: "),
                err.message(),
                Ghost(err@.text()),
                Ghost(err@.open_ended()),
            ),
            ServerError::ListenFdsFailure { err } => end_saying(
                String::from_str("Could not get list of file descriptors: "),
                err,
            ),
            ServerError::SelectError { err } => end_saying(
                String::from_str("Could not select on sockets: "),
                err,
            ),
            ServerError::CtlSocketError { fd, err } => end_saying(
                on_stream(
                    "An error has occurred on the CTL socket (",
                    signed_decimal(*fd).as_str(),
                    "): ",
                ),
                err,
            ),
            ServerError::FdError { what, fd } => {
                let mut r = join(what, " file descriptor (");
                r.append(signed_decimal(*fd).as_str());
                r.append(") has become invalid");
                r
            },
            ServerError::StreamAcceptError { what, err } => end_saying(
                on_stream("Could not accept new connection on ", what, " stream: "),
                err,
            ),
            ServerError::EmptyStream { what } => join(what, " stream is woken up but empty"),
            ServerError::StreamReadError { what, err } => end_saying(
                on_stream("Could not read from ", what, " stream: "),
                err,
            ),
            ServerError::StreamWriteError { what, err } => end_saying(
                on_stream("Could not write to ", what, " stream: "),
                err,
            ),
            ServerError::UnknownOpcode { err, .. } => err.message(),
            ServerError::IncompleteLength { what, got } => {
                let mut r = on_stream("Incomplete config size on ", what, " stream (got ");
                r.append(decimal(*got as u64).as_str());
                r.append(" bytes, expected 2)");
                r
            },
            ServerError::IncorrectConfigSize { what, got, expected } => {
                let mut r = on_stream("Incorrect config size on ", what, " stream (got ");
                r.append(decimal(*got as u64).as_str());
                r.append(" bytes, expected ");
                r.append(decimal(*expected as u64).as_str());
                r.append(")");
                r
            },
            ServerError::ReloadError { what, err } => go_on(
                on_stream("Could not reload configuration from ", what, " stream: "),
                err.message(),
                Ghost(err@.text()),
                Ghost(err@.open_ended()),
            ),
            ServerError::UnexpectedEvent { what } => on_stream(
                "Unexpected event on ",
                what,
                " stream",
            ),
            ServerError::WrongSource { what, got, expected } => {
                let mut r = join("Configuration of '", got.as_str());
                r.append("' was given on ");
                r.append(what);
                r.append(" stream in place of that of '");
                r.append(expected.as_str());
                r.append("'");
                r
            },
        }
    }
}

impl CtlFailure {
    /// The text of the message of the failure.
    pub open spec fn text(self) -> Seq<char> {
        match self {
            CtlFailure::SocketCreate { .. } => "Could not create Unix socket: "@,
            CtlFailure::SocketConnect { path, .. } => "Could not connect to server socket '"@
                + path + "': "@,
            CtlFailure::SocketWrite { .. } => "Could not write to server socket: "@,
            CtlFailure::SocketFlush { .. } => "Could not flush server socket: "@,
            CtlFailure::SocketRead { .. } => "Could not read from server socket: "@,
            CtlFailure::FileRead { path, .. } => "Could not read file '"@ + path + "': "@,
            CtlFailure::PayloadTooLong { len } => "A configuration of "@ + decimal_text(
                len as nat,
            ) + " bytes does not fit in one message"@,
        }
    }

    /// Whether the message goes on behind this text, with the words of an
    /// error of another library.
    pub open spec fn open_ended(self) -> bool {
        !(self is PayloadTooLong)
    }
}

impl CtlError {
    /// Whether `rest` is what the message goes on with behind its text: the
    /// words of the error of another library that the failure holds, and
    /// nothing where it holds none.
    pub open spec fn cause_says(self, rest: Seq<char>) -> bool {
        match self {
            CtlError::SocketCreateError { err } => words_of(&err, rest),
            CtlError::SocketConnectError { err, .. } => words_of(&err, rest),
            CtlError::SocketWriteError { err } => words_of(&err, rest),
            CtlError::SocketFlushError { err } => words_of(&err, rest),
            CtlError::SocketReadError { err } => words_of(&err, rest),
            CtlError::FileReadError { err, .. } => words_of(&err, rest),
            CtlError::PayloadTooLong { .. } => rest.len() == 0,
        }
    }

    /// Writes the message of the failure.
    pub fn message(&self) -> (r: String)
        ensures
            reads(r@, self@.text(), self@.open_ended()),
            self.cause_says(r@.skip(self@.text().len() as int)),
    {
        match self {
            CtlError::SocketCreateError { err } => end_saying(
                String::from_str("Could not create Unix socket: "),
                err,
            ),
            CtlError::SocketConnectError { path, err } => end_saying(
                of_file("Could not connect to server socket '", path.as_str()),
                err,
            ),
            CtlError::SocketWriteError { err } => end_saying(
                String::from_str("Could not write to server socket: "),
                err,
            ),
            CtlError::SocketFlushError { err } => end_saying(
                String::from_str("Could not flush server socket: "),
                err,
            ),
            CtlError::SocketReadError { err } => end_saying(
                String::from_str("Could not read from server socket: "),
                err,
            ),
            CtlError::FileReadError { path, err } => end_saying(
                of_file("Could not read file '", path.as_str()),
                err,
            ),
            CtlError::PayloadTooLong { len } => {
                let mut r = join("A configuration of ", decimal(*len as u64).as_str());
                r.append(" bytes does not fit in one message");
                r
            },
        }
    }
}

} // verus!
