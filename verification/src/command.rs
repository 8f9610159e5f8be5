//! The commands that this library asks to be sent to the store, and their
//! wire form.

use vstd::prelude::*;
use vstd::string::StrSliceExecFns;
use vstd::utf8::encode_utf8;
use crate::decimal::{decimal, render_i32, render_u32, signed_decimal};

verus! {

/// A request to the store. Whoever owns the connection sends it and hands
/// the reply back.
#[derive(Debug, PartialEq, Eq)]
pub enum Command {
    /// Ask how many databases the store is configured with.
    ConfigGetDatabases,
    /// Bind the connection to the database with this index.
    Select(u32),
    /// Store an integer under a key in the selected database.
    SetInt(String, i32),
    /// Read the value under a key in the selected database.
    Get(String),
}

impl Command {
    /// The arguments of the command as the store reads them, the command's
    /// name first. Text is in UTF-8 and integers are written in decimal.
    pub open spec fn args_spec(&self) -> Seq<Seq<u8>> {
        match self {
            Command::ConfigGetDatabases => seq![
                encode_utf8("CONFIG"@),
                encode_utf8("GET"@),
                encode_utf8("databases"@),
            ],
            Command::Select(index) => seq![encode_utf8("SELECT"@), decimal(*index as nat)],
            Command::SetInt(key, val) => seq![
                encode_utf8("SET"@),
                encode_utf8(key@),
                signed_decimal(*val as int),
            ],
            Command::Get(key) => seq![encode_utf8("GET"@), encode_utf8(key@)],
        }
    }

    /// Builds the arguments of the command.
    pub fn args(&self) -> (r: Vec<Vec<u8>>)
        ensures
            r.deep_view() == self.args_spec(),
    {
        let mut out: Vec<Vec<u8>> = Vec::new();
        match self {
            Command::ConfigGetDatabases => {
                out.push("CONFIG".as_bytes_vec());
                out.push("GET".as_bytes_vec());
                out.push("databases".as_bytes_vec());
            },
            Command::Select(index) => {
                out.push("SELECT".as_bytes_vec());
                out.push(render_u32(*index));
            },
            Command::SetInt(key, val) => {
                out.push("SET".as_bytes_vec());
                out.push(key.as_str().as_bytes_vec());
                out.push(render_i32(*val));
            },
            Command::Get(key) => {
                out.push("GET".as_bytes_vec());
                out.push(key.as_str().as_bytes_vec());
            },
        }
        assert(out.deep_view() =~~= self.args_spec());
        out
    }

    /// The bytes to put on the wire for this command.
    pub fn packed(&self) -> (r: Vec<u8>)
        ensures
            r@ == request(self.args_spec()),
    {
        let args = self.args();
        pack_command(&args)
    }
}

/// One argument on the wire: a dollar sign, the argument's length in
/// decimal, a line end, the argument's bytes, a line end.
pub open spec fn bulk_string(arg: Seq<u8>) -> Seq<u8> {
    seq![36u8] + decimal(arg.len()) + seq![13u8, 10u8] + arg + seq![13u8, 10u8]
}

/// The arguments on the wire, one after the other.
pub open spec fn bulk_strings(args: Seq<Seq<u8>>) -> Seq<u8>
    decreases args.len(),
{
    if args.len() == 0 {
        Seq::empty()
    } else {
        bulk_strings(args.drop_last()) + bulk_string(args.last())
    }
}

/// A request on the wire: an asterisk, the number of arguments in decimal,
/// a line end, then the arguments.
pub open spec fn request(args: Seq<Seq<u8>>) -> Seq<u8> {
    seq![42u8] + decimal(args.len()) + seq![13u8, 10u8] + bulk_strings(args)
}

/// `redis::pack_command`: the driver's encoder for one request. The contract
/// claims that it writes the arguments in the store's wire format as
/// `request` spells it out, whatever the arguments are.
#[verifier::external_body]
fn pack_command(args: &Vec<Vec<u8>>) -> (r: Vec<u8>)
    ensures
        r@ == request(args.deep_view()),
{
    redis::pack_command(args)
}

} // verus!
