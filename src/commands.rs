use vstd::prelude::*;

use crate::command::{descriptor_model, wires_model, Command, ReCmd};
use crate::error::Result;
use crate::response::{
    decode_opt_string_response, decode_string_response, decode_usize_response, opt_string_outcome,
    string_outcome, usize_outcome, ReResponse,
};
use crate::wire::WireValue;

verus! {

/// Determine if a key exists.
#[derive(Debug)]
pub struct ExistsCommand {
    json: ReCmd,
}

impl ExistsCommand {
    /// The command with its required arguments, in order.
    pub fn new(key: WireValue) -> (r: ExistsCommand)
        ensures
            r.cmd_wf(),
            r.descriptor() == descriptor_model("EXISTS"@, seq![key@]),
    {
        let mut json = ReCmd::new("EXISTS");
        json.add_arg(key);
        let r = ExistsCommand { json };
        assert(r.descriptor() =~= descriptor_model("EXISTS"@, seq![key@]));
        r
    }

    /// Decodes the store's answer to this command.
    pub fn json_to_output(&self, resp: ReResponse<WireValue>) -> (r: Result<usize>)
        ensures
            usize_outcome(resp, r),
    {
        decode_usize_response(resp)
    }
}

impl Command for ExistsCommand {
    closed spec fn descriptor(&self) -> Seq<crate::wire::WireModel> {
        self.json@
    }

    closed spec fn cmd_wf(&self) -> bool {
        self.json.wf()
    }

    fn as_cmd(&self) -> (r: &ReCmd) {
        &self.json
    }

    fn into_cmd(self) -> (r: ReCmd) {
        self.json
    }

    fn set_options(&mut self, opt: WireValue) {
        self.json.add_arg(opt);
    }
}

/// Removes the specified fields from the hash stored at key; fields that do not exist are ignored, and a missing key counts as an empty hash.
#[derive(Debug)]
pub struct HdelCommand {
    json: ReCmd,
}

impl HdelCommand {
    /// The command with its required arguments, in order.
    pub fn new(key: WireValue, field: WireValue) -> (r: HdelCommand)
        ensures
            r.cmd_wf(),
            r.descriptor() == descriptor_model("HDEL"@, seq![key@, field@]),
    {
        let mut json = ReCmd::new("HDEL");
        json.add_arg(key);
        json.add_arg(field);
        let r = HdelCommand { json };
        assert(r.descriptor() =~= descriptor_model("HDEL"@, seq![key@, field@]));
        r
    }

    /// Decodes the store's answer to this command.
    pub fn json_to_output(&self, resp: ReResponse<WireValue>) -> (r: Result<usize>)
        ensures
            usize_outcome(resp, r),
    {
        decode_usize_response(resp)
    }
}

impl Command for HdelCommand {
    closed spec fn descriptor(&self) -> Seq<crate::wire::WireModel> {
        self.json@
    }

    closed spec fn cmd_wf(&self) -> bool {
        self.json.wf()
    }

    fn as_cmd(&self) -> (r: &ReCmd) {
        &self.json
    }

    fn into_cmd(self) -> (r: ReCmd) {
        self.json
    }

    fn set_options(&mut self, opt: WireValue) {
        self.json.add_arg(opt);
    }
}

/// Get the value of a hash field.
#[derive(Debug)]
pub struct HgetCommand {
    json: ReCmd,
}

impl HgetCommand {
    /// The command with its required arguments, in order.
    pub fn new(key: WireValue, field: WireValue) -> (r: HgetCommand)
        ensures
            r.cmd_wf(),
            r.descriptor() == descriptor_model("HGET"@, seq![key@, field@]),
    {
        let mut json = ReCmd::new("HGET");
        json.add_arg(key);
        json.add_arg(field);
        let r = HgetCommand { json };
        assert(r.descriptor() =~= descriptor_model("HGET"@, seq![key@, field@]));
        r
    }

    /// Decodes the store's answer to this command.
    pub fn json_to_output(&self, resp: ReResponse<WireValue>) -> (r: Result<Option<String>>)
        ensures
            opt_string_outcome(resp, r),
    {
        decode_opt_string_response(resp)
    }
}

impl Command for HgetCommand {
    closed spec fn descriptor(&self) -> Seq<crate::wire::WireModel> {
        self.json@
    }

    closed spec fn cmd_wf(&self) -> bool {
        self.json.wf()
    }

    fn as_cmd(&self) -> (r: &ReCmd) {
        &self.json
    }

    fn into_cmd(self) -> (r: ReCmd) {
        self.json
    }

    fn set_options(&mut self, opt: WireValue) {
        self.json.add_arg(opt);
    }
}

/// Remove and return one or multiple random members from a set.
#[derive(Debug)]
pub struct SpopCommand {
    json: ReCmd,
}

impl SpopCommand {
    /// The command with its required arguments, in order.
    pub fn new(key: WireValue) -> (r: SpopCommand)
        ensures
            r.cmd_wf(),
            r.descriptor() == descriptor_model("SPOP"@, seq![key@]),
    {
        let mut json = ReCmd::new("SPOP");
        json.add_arg(key);
        let r = SpopCommand { json };
        assert(r.descriptor() =~= descriptor_model("SPOP"@, seq![key@]));
        r
    }

    /// Decodes the store's answer to this command.
    pub fn json_to_output(&self, resp: ReResponse<WireValue>) -> (r: Result<Option<String>>)
        ensures
            opt_string_outcome(resp, r),
    {
        decode_opt_string_response(resp)
    }
}

impl Command for SpopCommand {
    closed spec fn descriptor(&self) -> Seq<crate::wire::WireModel> {
        self.json@
    }

    closed spec fn cmd_wf(&self) -> bool {
        self.json.wf()
    }

    fn as_cmd(&self) -> (r: &ReCmd) {
        &self.json
    }

    fn into_cmd(self) -> (r: ReCmd) {
        self.json
    }

    fn set_options(&mut self, opt: WireValue) {
        self.json.add_arg(opt);
    }
}

/// Removes the specified members from a stream.
#[derive(Debug)]
pub struct XdelCommand {
    json: ReCmd,
}

impl XdelCommand {
    /// The command with its required arguments, in order.
    pub fn new(key: WireValue, id: WireValue) -> (r: XdelCommand)
        ensures
            r.cmd_wf(),
            r.descriptor() == descriptor_model("XDEL"@, seq![key@, id@]),
    {
        let mut json = ReCmd::new("XDEL");
        json.add_arg(key);
        json.add_arg(id);
        let r = XdelCommand { json };
        assert(r.descriptor() =~= descriptor_model("XDEL"@, seq![key@, id@]));
        r
    }

    /// Decodes the store's answer to this command.
    pub fn json_to_output(&self, resp: ReResponse<WireValue>) -> (r: Result<usize>)
        ensures
            usize_outcome(resp, r),
    {
        decode_usize_response(resp)
    }
}

impl Command for XdelCommand {
    closed spec fn descriptor(&self) -> Seq<crate::wire::WireModel> {
        self.json@
    }

    closed spec fn cmd_wf(&self) -> bool {
        self.json.wf()
    }

    fn as_cmd(&self) -> (r: &ReCmd) {
        &self.json
    }

    fn into_cmd(self) -> (r: ReCmd) {
        self.json
    }

    fn set_options(&mut self, opt: WireValue) {
        self.json.add_arg(opt);
    }
}

/// Append a value to a key.
#[derive(Debug)]
pub struct AppendCommand {
    json: ReCmd,
}

impl AppendCommand {
    /// The command with its required arguments, in order.
    pub fn new(key: WireValue, value: WireValue) -> (r: AppendCommand)
        ensures
            r.cmd_wf(),
            r.descriptor() == descriptor_model("APPEND"@, seq![key@, value@]),
    {
        let mut json = ReCmd::new("APPEND");
        json.add_arg(key);
        json.add_arg(value);
        let r = AppendCommand { json };
        assert(r.descriptor() =~= descriptor_model("APPEND"@, seq![key@, value@]));
        r
    }

    /// Decodes the store's answer to this command.
    pub fn json_to_output(&self, resp: ReResponse<WireValue>) -> (r: Result<usize>)
        ensures
            usize_outcome(resp, r),
    {
        decode_usize_response(resp)
    }
}

impl Command for AppendCommand {
    closed spec fn descriptor(&self) -> Seq<crate::wire::WireModel> {
        self.json@
    }

    closed spec fn cmd_wf(&self) -> bool {
        self.json.wf()
    }

    fn as_cmd(&self) -> (r: &ReCmd) {
        &self.json
    }

    fn into_cmd(self) -> (r: ReCmd) {
        self.json
    }

    fn set_options(&mut self, opt: WireValue) {
        self.json.add_arg(opt);
    }
}

/// Decrement the integer value of a key by the given number.
#[derive(Debug)]
pub struct DecrbyCommand {
    json: ReCmd,
}

impl DecrbyCommand {
    /// The command with its required arguments, in order.
    pub fn new(key: WireValue, decrement: WireValue) -> (r: DecrbyCommand)
        ensures
            r.cmd_wf(),
            r.descriptor() == descriptor_model("DECRBY"@, seq![key@, decrement@]),
    {
        let mut json = ReCmd::new("DECRBY");
        json.add_arg(key);
        json.add_arg(decrement);
        let r = DecrbyCommand { json };
        assert(r.descriptor() =~= descriptor_model("DECRBY"@, seq![key@, decrement@]));
        r
    }

    /// Decodes the store's answer to this command.
    pub fn json_to_output(&self, resp: ReResponse<WireValue>) -> (r: Result<usize>)
        ensures
            usize_outcome(resp, r),
    {
        decode_usize_response(resp)
    }
}

impl Command for DecrbyCommand {
    closed spec fn descriptor(&self) -> Seq<crate::wire::WireModel> {
        self.json@
    }

    closed spec fn cmd_wf(&self) -> bool {
        self.json.wf()
    }

    fn as_cmd(&self) -> (r: &ReCmd) {
        &self.json
    }

    fn into_cmd(self) -> (r: ReCmd) {
        self.json
    }

    fn set_options(&mut self, opt: WireValue) {
        self.json.add_arg(opt);
    }
}

/// Get a key after deleting it.
#[derive(Debug)]
pub struct GetdelCommand {
    json: ReCmd,
}

impl GetdelCommand {
    /// The command with its required arguments, in order.
    pub fn new(key: WireValue) -> (r: GetdelCommand)
        ensures
            r.cmd_wf(),
            r.descriptor() == descriptor_model("GETDEL"@, seq![key@]),
    {
        let mut json = ReCmd::new("GETDEL");
        json.add_arg(key);
        let r = GetdelCommand { json };
        assert(r.descriptor() =~= descriptor_model("GETDEL"@, seq![key@]));
        r
    }

    /// Decodes the store's answer to this command.
    pub fn json_to_output(&self, resp: ReResponse<WireValue>) -> (r: Result<Option<String>>)
        ensures
            opt_string_outcome(resp, r),
    {
        decode_opt_string_response(resp)
    }
}

impl Command for GetdelCommand {
    closed spec fn descriptor(&self) -> Seq<crate::wire::WireModel> {
        self.json@
    }

    closed spec fn cmd_wf(&self) -> bool {
        self.json.wf()
    }

    fn as_cmd(&self) -> (r: &ReCmd) {
        &self.json
    }

    fn into_cmd(self) -> (r: ReCmd) {
        self.json
    }

    fn set_options(&mut self, opt: WireValue) {
        self.json.add_arg(opt);
    }
}

/// Increment the integer value of a key by one.
#[derive(Debug)]
pub struct IncrCommand {
    json: ReCmd,
}

impl IncrCommand {
    /// The command with its required arguments, in order.
    pub fn new(key: WireValue) -> (r: IncrCommand)
        ensures
            r.cmd_wf(),
            r.descriptor() == descriptor_model("INCR"@, seq![key@]),
    {
        let mut json = ReCmd::new("INCR");
        json.add_arg(key);
        let r = IncrCommand { json };
        assert(r.descriptor() =~= descriptor_model("INCR"@, seq![key@]));
        r
    }

    /// Decodes the store's answer to this command.
    pub fn json_to_output(&self, resp: ReResponse<WireValue>) -> (r: Result<usize>)
        ensures
            usize_outcome(resp, r),
    {
        decode_usize_response(resp)
    }
}

impl Command for IncrCommand {
    closed spec fn descriptor(&self) -> Seq<crate::wire::WireModel> {
        self.json@
    }

    closed spec fn cmd_wf(&self) -> bool {
        self.json.wf()
    }

    fn as_cmd(&self) -> (r: &ReCmd) {
        &self.json
    }

    fn into_cmd(self) -> (r: ReCmd) {
        self.json
    }

    fn set_options(&mut self, opt: WireValue) {
        self.json.add_arg(opt);
    }
}

/// Increment the integer value of a key by the given amount.
#[derive(Debug)]
pub struct IncrbyCommand {
    json: ReCmd,
}

impl IncrbyCommand {
    /// The command with its required arguments, in order.
    pub fn new(key: WireValue, increment: WireValue) -> (r: IncrbyCommand)
        ensures
            r.cmd_wf(),
            r.descriptor() == descriptor_model("INCRBY"@, seq![key@, increment@]),
    {
        let mut json = ReCmd::new("INCRBY");
        json.add_arg(key);
        json.add_arg(increment);
        let r = IncrbyCommand { json };
        assert(r.descriptor() =~= descriptor_model("INCRBY"@, seq![key@, increment@]));
        r
    }

    /// Decodes the store's answer to this command.
    pub fn json_to_output(&self, resp: ReResponse<WireValue>) -> (r: Result<usize>)
        ensures
            usize_outcome(resp, r),
    {
        decode_usize_response(resp)
    }
}

impl Command for IncrbyCommand {
    closed spec fn descriptor(&self) -> Seq<crate::wire::WireModel> {
        self.json@
    }

    closed spec fn cmd_wf(&self) -> bool {
        self.json.wf()
    }

    fn as_cmd(&self) -> (r: &ReCmd) {
        &self.json
    }

    fn into_cmd(self) -> (r: ReCmd) {
        self.json
    }

    fn set_options(&mut self, opt: WireValue) {
        self.json.add_arg(opt);
    }
}

/// Increment the value of a key by the given floating point amount, written as a decimal string.
#[derive(Debug)]
pub struct IncrbyfloatCommand {
    json: ReCmd,
}

impl IncrbyfloatCommand {
    /// The command with its required arguments, in order.
    pub fn new(key: WireValue, increment: WireValue) -> (r: IncrbyfloatCommand)
        ensures
            r.cmd_wf(),
            r.descriptor() == descriptor_model("INCRBYFLOAT"@, seq![key@, increment@]),
    {
        let mut json = ReCmd::new("INCRBYFLOAT");
        json.add_arg(key);
        json.add_arg(increment);
        let r = IncrbyfloatCommand { json };
        assert(r.descriptor() =~= descriptor_model("INCRBYFLOAT"@, seq![key@, increment@]));
        r
    }

    /// Decodes the store's answer to this command.
    pub fn json_to_output(&self, resp: ReResponse<WireValue>) -> (r: Result<String>)
        ensures
            string_outcome(resp, r),
    {
        decode_string_response(resp)
    }
}

impl Command for IncrbyfloatCommand {
    closed spec fn descriptor(&self) -> Seq<crate::wire::WireModel> {
        self.json@
    }

    closed spec fn cmd_wf(&self) -> bool {
        self.json.wf()
    }

    fn as_cmd(&self) -> (r: &ReCmd) {
        &self.json
    }

    fn into_cmd(self) -> (r: ReCmd) {
        self.json
    }

    fn set_options(&mut self, opt: WireValue) {
        self.json.add_arg(opt);
    }
}

/// Get the length of the value stored in a key.
#[derive(Debug)]
pub struct StrlenCommand {
    json: ReCmd,
}

impl StrlenCommand {
    /// The command with its required arguments, in order.
    pub fn new(key: WireValue) -> (r: StrlenCommand)
        ensures
            r.cmd_wf(),
            r.descriptor() == descriptor_model("STRLEN"@, seq![key@]),
    {
        let mut json = ReCmd::new("STRLEN");
        json.add_arg(key);
        let r = StrlenCommand { json };
        assert(r.descriptor() =~= descriptor_model("STRLEN"@, seq![key@]));
        r
    }

    /// Decodes the store's answer to this command.
    pub fn json_to_output(&self, resp: ReResponse<WireValue>) -> (r: Result<usize>)
        ensures
            usize_outcome(resp, r),
    {
        decode_usize_response(resp)
    }
}

impl Command for StrlenCommand {
    closed spec fn descriptor(&self) -> Seq<crate::wire::WireModel> {
        self.json@
    }

    closed spec fn cmd_wf(&self) -> bool {
        self.json.wf()
    }

    fn as_cmd(&self) -> (r: &ReCmd) {
        &self.json
    }

    fn into_cmd(self) -> (r: ReCmd) {
        self.json
    }

    fn set_options(&mut self, opt: WireValue) {
        self.json.add_arg(opt);
    }
}

impl ExistsCommand {
    /// Appends one more key to check.
    pub fn add_key(&mut self, key: WireValue)
        requires
            old(self).cmd_wf(),
        ensures
            final(self).cmd_wf(),
            final(self).descriptor() == old(self).descriptor().push(key@),
    {
        self.set_options(key)
    }

    /// Appends several keys, in the order given.
    pub fn add_keys(&mut self, keys: Vec<WireValue>)
        requires
            old(self).cmd_wf(),
        ensures
            final(self).cmd_wf(),
            final(self).descriptor() == old(self).descriptor() + wires_model(keys@),
    {
        self.json.add_args(keys);
    }
}

impl HdelCommand {
    /// Appends one more field to remove.
    pub fn add_field(&mut self, field: WireValue)
        requires
            old(self).cmd_wf(),
        ensures
            final(self).cmd_wf(),
            final(self).descriptor() == old(self).descriptor().push(field@),
    {
        self.set_options(field)
    }
}

impl SpopCommand {
    /// Appends how many members to pop.
    pub fn add_count(&mut self, count: usize)
        requires
            old(self).cmd_wf(),
        ensures
            final(self).cmd_wf(),
            final(self).descriptor() == old(self).descriptor().push(crate::wire::WireModel::Num(count as int)),
    {
        self.set_options(WireValue::from_usize(count))
    }
}

impl XdelCommand {
    /// Appends one more entry id to remove.
    pub fn add_id(&mut self, id: WireValue)
        requires
            old(self).cmd_wf(),
        ensures
            final(self).cmd_wf(),
            final(self).descriptor() == old(self).descriptor().push(id@),
    {
        self.set_options(id)
    }
}

} // verus!
