use vstd::prelude::*;
use vstd::utf8::{decode_utf8, encode_utf8, valid_utf8};
use crate::error::{Error, ErrorKind};
use crate::json::{json_of, lossy_text, lossy_text_of, pretty_json_of};
use crate::text::{decimal_text, i64_text, utf8_text};
use crate::value::{
    canonical_json, decodable, encodes, parse_failure_message, readable, value_readable, values_equal,
    DecodedValue,
};

verus! {

/// The canonical encoding in `bytes` stands for a value.
pub open spec fn expected_decodes(bytes: Seq<u8>) -> bool {
    json_of(bytes) is Some && decodable(json_of(bytes)->0)
}

/// The message of a mismatch: both values in their canonical encoding.
pub open spec fn mismatch_message(expected: DecodedValue, actual: DecodedValue) -> Seq<char> {
    "Unexpected decoding.\nExpected\n"@ + pretty_json_of(canonical_json(expected))
        + "\nActual\n"@ + pretty_json_of(canonical_json(actual))
}

/// The message of values that cannot be compared: a scalar of one of them
/// cannot be read under its tag.
pub open spec fn unreadable_message(expected: DecodedValue, actual: DecodedValue) -> Seq<char> {
    "Unreadable scalar.\nExpected\n"@ + pretty_json_of(canonical_json(expected)) + "\nActual\n"@
        + pretty_json_of(canonical_json(actual))
}

/// What comparing an expected value with an actual one returns: success
/// when both are readable and equal; an unreadable-scalar error when either
/// is not readable; else a mismatch.
pub open spec fn comparison_verdict(e: DecodedValue, a: DecodedValue, r: Result<(), Error>) -> bool {
    if value_readable(e) && value_readable(a) {
        &&& r is Ok <==> values_equal(a, e)
        &&& r is Err ==> r->Err_0.spec_kind() == ErrorKind::Mismatch && r->Err_0.spec_message()
            == mismatch_message(e, a)
    } else {
        r is Err && r->Err_0.spec_kind() == ErrorKind::Unreadable && r->Err_0.spec_message()
            == unreadable_message(e, a)
    }
}

/// The message of an invalid case that a decoder accepted.
pub open spec fn accepted_message(v: DecodedValue) -> Seq<char> {
    "Should have failed but got:\n"@ + pretty_json_of(canonical_json(v))
}

/// The message of an encoder's text that the trusted decoder rejected.
pub open spec fn unreadable_output_message(error: Seq<char>, produced: Seq<char>) -> Seq<char> {
    "Could not parse encoded TOML: "@ + error + "\n```\n"@ + produced + "\n```"@
}

/// What a valid case's verification returns for the decoder's outcome `o`:
/// the decoder's error as it came; else a corpus error where the expected
/// bytes are no canonical encoding; else the verdict of comparing the
/// expected value with the decoded one.
pub open spec fn valid_case_verdict(
    o: Result<DecodedValue, Error>,
    expected: Seq<u8>,
    r: Result<(), Error>,
) -> bool {
    match o {
        Err(e) => r == Err::<(), Error>(e),
        Ok(a) => if expected_decodes(expected) {
            exists|e: DecodedValue|
                encodes(e, json_of(expected)->0) && #[trigger] comparison_verdict(e, a, r)
        } else {
            r is Err && r->Err_0.spec_kind() == ErrorKind::Corpus && r->Err_0.spec_message()
                == parse_failure_message(expected)
        },
    }
}

/// What an encoder's verification returns once the expected value `e` was
/// encoded into `encoded` and, on success, the trusted decoder made
/// `decoded` of the text: the encoder's error as it came; a rejection of the
/// text by the decoder, shown with the text; else the verdict of comparing
/// `e` with the decoded value.
pub open spec fn round_trip_verdict(
    e: DecodedValue,
    encoded: Result<String, Error>,
    decoded: Result<DecodedValue, Error>,
    r: Result<(), Error>,
) -> bool {
    match encoded {
        Err(x) => r == Err::<(), Error>(x),
        Ok(t) => match decoded {
            Err(x) => r is Err && r->Err_0.spec_kind() == ErrorKind::Implementation
                && r->Err_0.spec_message() == unreadable_output_message(x.spec_message(), t@),
            Ok(w) => comparison_verdict(e, w, r),
        },
    }
}

/// Judges the outcome of decoding a valid case against the value expected.
///
/// A failed decoding is passed on as it came. A decoded value passes when
/// it equals the expected one and fails with a mismatch that shows both
/// values when it does not; where a scalar of either cannot be read under
/// its tag, the values are not compared and an unreadable-scalar error
/// shows both.
pub fn judge_valid_case(actual: Result<DecodedValue, Error>, expected: &DecodedValue) -> (r: Result<
    (),
    Error,
>)
    ensures
        actual is Err ==> r == Err::<(), Error>(actual->Err_0),
        actual is Ok ==> comparison_verdict(*expected, actual->Ok_0, r),
{
    match actual {
        Err(e) => Err(e),
        Ok(a) => {
            if !readable(&a) || !readable(expected) {
                let mut message = String::from_str("Unreadable scalar.\nExpected\n");
                message.append(expected.pretty().as_str());
                message.append("\nActual\n");
                message.append(a.pretty().as_str());
                Err(Error::with_kind(ErrorKind::Unreadable, message))
            } else if a == *expected {
                Ok(())
            } else {
                let mut message = String::from_str("Unexpected decoding.\nExpected\n");
                message.append(expected.pretty().as_str());
                message.append("\nActual\n");
                message.append(a.pretty().as_str());
                Err(Error::with_kind(ErrorKind::Mismatch, message))
            }
        },
    }
}

/// Judges the outcome of decoding an invalid case: a failure to decode is
/// the success of the case, and carries the decoder's error; a decoded value
/// is the failure of the case.
pub fn judge_invalid_case(outcome: Result<DecodedValue, Error>) -> (r: Result<Error, Error>)
    ensures
        r is Ok <==> outcome is Err,
        outcome is Err ==> r == Ok::<Error, Error>(outcome->Err_0),
        outcome is Ok ==> r->Err_0.spec_kind() == ErrorKind::Mismatch,
        outcome is Ok ==> r->Err_0.spec_message() == accepted_message(outcome->Ok_0),
{
    match outcome {
        Err(e) => Ok(e),
        Ok(value) => {
            let mut message = String::from_str("Should have failed but got:\n");
            let text = value.pretty();
            message.append(text.as_str());
            Err(Error::with_kind(ErrorKind::Mismatch, message))
        },
    }
}

/// Judges an encoder's round trip: the text the encoder produced, what the
/// trusted decoder made of it, and the value that was encoded.
pub fn judge_round_trip(
    produced: &str,
    decoded: Result<DecodedValue, Error>,
    expected: &DecodedValue,
) -> (r: Result<(), Error>)
    ensures
        decoded is Err ==> r is Err && r->Err_0.spec_kind() == ErrorKind::Implementation
            && r->Err_0.spec_message() == unreadable_output_message(
            decoded->Err_0.spec_message(),
            produced@,
        ),
        decoded is Ok ==> comparison_verdict(*expected, decoded->Ok_0, r),
{
    match decoded {
        Err(e) => {
            let mut message = String::from_str("Could not parse encoded TOML: ");
            message.append(e.message());
            message.append("\n```\n");
            message.append(produced);
            message.append("\n```");
            Err(Error::new(message))
        },
        Ok(actual) => judge_valid_case(Ok(actual), expected),
    }
}

/// An implementation that turns documents into values.
pub trait Decoder {
    fn decode(&self, data: &[u8]) -> Result<DecodedValue, Error>;

    /// Decodes a valid case and compares the result with the value that the
    /// canonical encoding `expected` stands for.
    fn verify_valid_case(&self, fixture: &[u8], expected: &[u8]) -> (r: Result<(), Error>)
        default_ensures
            exists|o: Result<DecodedValue, Error>|
                #[trigger] call_ensures(Self::decode, (self, fixture), o) && valid_case_verdict(
                    o,
                    expected@,
                    r,
                ),
    {
        let actual = self.decode(fixture);
        if let Err(e) = actual {
            return Err(e);
        }
        let expected = DecodedValue::from_slice(expected)?;
        judge_valid_case(actual, &expected)
    }

    /// Decodes an invalid case, which passes when decoding fails.
    fn verify_invalid_case(&self, fixture: &[u8]) -> (r: Result<Error, Error>)
        default_ensures
            exists|o: Result<DecodedValue, Error>|
                #[trigger] call_ensures(Self::decode, (self, fixture), o) && (r is Ok <==> o is Err)
                    && (o is Err ==> r == Ok::<Error, Error>(o->Err_0)) && (o is Ok
                    ==> r->Err_0.spec_kind() == ErrorKind::Mismatch && r->Err_0.spec_message()
                    == accepted_message(o->Ok_0)),
    {
        let outcome = self.decode(fixture);
        judge_invalid_case(outcome)
    }

    fn name(&self) -> &str;
}

/// An implementation that turns values into documents.
pub trait Encoder {
    fn encode(&self, data: DecodedValue) -> Result<String, Error>;

    /// Encodes the value that the canonical encoding `decoded` stands for,
    /// decodes the text with `fixture`, a decoder already found correct, and
    /// compares the two values.
    fn verify_valid_case<D: Decoder>(&self, decoded: &[u8], fixture: &D) -> (r: Result<(), Error>)
        default_ensures
            !expected_decodes(decoded@) ==> r is Err && r->Err_0.spec_kind() == ErrorKind::Corpus
                && r->Err_0.spec_message() == parse_failure_message(decoded@),
            expected_decodes(decoded@) ==> exists|e: DecodedValue, v: DecodedValue, t: Result<String, Error>|
                #![trigger call_ensures(Self::encode, (self, v), t), encodes(e, json_of(decoded@)->0)]
                encodes(e, json_of(decoded@)->0) && encodes(v, json_of(decoded@)->0) && call_ensures(
                    Self::encode,
                    (self, v),
                    t,
                ) && match t {
                    Err(x) => r == Err::<(), Error>(x),
                    Ok(text) => exists|b: &[u8], p: Result<DecodedValue, Error>|
                        #![trigger call_ensures(D::decode, (fixture, b), p)]
                        b@ == encode_utf8(text@) && call_ensures(D::decode, (fixture, b), p)
                            && round_trip_verdict(e, t, p, r),
                },
    {
        let decoded_expected = DecodedValue::from_slice(decoded)?;
        let to_encode = DecodedValue::from_slice(decoded)?;
        let ghost v = to_encode;
        let encoded = self.encode(to_encode);
        let actual = match encoded {
            Ok(t) => t,
            Err(x) => {
                return Err(x);
            },
        };
        let bytes = actual.as_str().as_bytes();
        let decoded_actual = fixture.decode(bytes);
        let ghost p = decoded_actual;
        let r = judge_round_trip(actual.as_str(), decoded_actual, &decoded_expected);
        assert(round_trip_verdict(decoded_expected, Ok::<String, Error>(actual), p, r));
        r
    }

    fn name(&self) -> &str;
}

/// What an external program left behind: whether it exited successfully,
/// its exit code if it had one, and what it wrote to its output and error
/// streams.
pub struct ProcessOutput {
    pub success: bool,
    pub code: Option<i32>,
    pub stdout: Vec<u8>,
    pub stderr: Vec<u8>,
}

/// How an exit code is shown in a message: `Some(<code>)` or `None`.
pub open spec fn code_text(code: Option<i32>) -> Seq<char> {
    match code {
        Some(c) => "Some("@ + decimal_text(c as int) + ")"@,
        None => "None"@,
    }
}

/// An external program under test, driven through its standard streams.
///
/// Each decoding or encoding runs the program once: the input is written to
/// its standard input, which is then closed, and the outcome is read from
/// what it left behind. Running the program is the caller's part; this type
/// says what to write and how to read the outcome.
#[derive(Clone, Debug)]
pub struct Command {
    bin: String,
}

impl Command {
    pub closed spec fn spec_bin(&self) -> Seq<char> {
        self.bin@
    }

    pub fn new(path: &str) -> (r: Command)
        ensures
            r.spec_bin() == path@,
    {
        Command { bin: path.to_owned() }
    }

    /// The path of the program, which is also its display name.
    pub fn name(&self) -> (r: &str)
        ensures
            r@ == self.spec_bin(),
    {
        self.bin.as_str()
    }

    /// The message for a program that exited unsuccessfully.
    pub fn failure_message(&self, output: &ProcessOutput) -> (r: String)
        ensures
            r@ == self.spec_bin() + " failed with "@ + code_text(output.code) + ": "@
                + lossy_text_of(output.stderr@),
    {
        let mut message = self.bin.clone();
        message.append(" failed with ");
        match output.code {
            Some(c) => {
                message.append("Some(");
                message.append(i64_text(c as i64).as_str());
                message.append(")");
            },
            None => {
                message.append("None");
            },
        }
        message.append(": ");
        message.append(lossy_text(output.stderr.as_slice()).as_str());
        message
    }

    /// Reads the outcome of a decoding run: on success the canonical
    /// encoding on standard output, else the exit code and standard error.
    pub fn decode_output(&self, output: &ProcessOutput) -> (r: Result<DecodedValue, Error>)
        ensures
            r is Ok <==> output.success && expected_decodes(output.stdout@),
            r is Ok ==> encodes(r->Ok_0, json_of(output.stdout@)->0),
            output.success && r is Err ==> r->Err_0.spec_kind() == ErrorKind::Implementation
                && r->Err_0.spec_message() == parse_failure_message(output.stdout@),
            !output.success ==> r->Err_0.spec_kind() == ErrorKind::Process && r->Err_0.spec_message()
                == self.spec_bin() + " failed with "@ + code_text(output.code) + ": "@
                + lossy_text_of(output.stderr@),
    {
        if output.success {
            match DecodedValue::from_slice(output.stdout.as_slice()) {
                Ok(v) => Ok(v),
                Err(e) => Err(Error::new(e.message().to_owned())),
            }
        } else {
            Err(Error::with_kind(ErrorKind::Process, self.failure_message(output)))
        }
    }

    /// What to write to the program's standard input for an encoding run:
    /// the canonical encoding of the value.
    pub fn encode_input(&self, data: &DecodedValue) -> (r: String)
        ensures
            r@ == pretty_json_of(canonical_json(*data)),
    {
        data.pretty()
    }

    /// Reads the outcome of an encoding run: on success the document on
    /// standard output, which must be UTF-8, else the exit code and
    /// standard error.
    pub fn encode_output(&self, output: ProcessOutput) -> (r: Result<String, Error>)
        ensures
            r is Ok <==> output.success && valid_utf8(output.stdout@),
            r is Ok ==> r->Ok_0@ == decode_utf8(output.stdout@),
            output.success && r is Err ==> r->Err_0.spec_kind() == ErrorKind::Implementation,
            !output.success ==> r->Err_0.spec_kind() == ErrorKind::Process && r->Err_0.spec_message()
                == self.spec_bin() + " failed with "@ + code_text(output.code) + ": "@
                + lossy_text_of(output.stderr@),
    {
        if output.success {
            match utf8_text(output.stdout) {
                Some(text) => Ok(text),
                None => Err(Error::new(String::from_str("the output is not UTF-8"))),
            }
        } else {
            Err(Error::with_kind(ErrorKind::Process, self.failure_message(&output)))
        }
    }
}

} // verus!
