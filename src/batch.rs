use vstd::prelude::*;

use crate::command::ReCmd;
use crate::error::{ReError, Result};
use crate::response::{envelopes_model, EnvelopeModel, ReResponse};
use crate::wire::{WireModel, WireValue};

verus! {

/// The models of a sequence of descriptors, in order.
pub open spec fn cmds_model(cs: Seq<ReCmd>) -> Seq<Seq<WireModel>> {
    cs.map_values(|c: ReCmd| c@)
}

/// Every descriptor in the sequence is well-formed.
pub open spec fn all_wf(cs: Seq<ReCmd>) -> bool {
    forall|i: int| 0 <= i < cs.len() ==> (#[trigger] cs[i]).wf()
}

/// What a batch of `n` commands makes of a pipeline response: the entries as
/// they came, one per command in submission order, whatever each one holds;
/// nothing when their number is not `n`.
pub open spec fn pipeline_outcome(n: nat, resp: Seq<EnvelopeModel>) -> Option<Seq<EnvelopeModel>> {
    if resp.len() == n {
        Some(resp)
    } else {
        None
    }
}

/// What a batch of `n` commands makes of a transaction response: for an
/// outer error, that error and no entries; for an outer result, its entries
/// when there is one per command, else nothing.
pub open spec fn transaction_outcome(n: nat, outer: ReResponse<Vec<ReResponse<WireValue>>>) -> Option<
    core::result::Result<Seq<EnvelopeModel>, Seq<char>>,
> {
    match outer {
        ReResponse::Error(m) => Some(Err(m@)),
        ReResponse::Result(v) => if v@.len() == n {
            Some(Ok(envelopes_model(v@)))
        } else {
            None
        },
    }
}

/// Commands sent together in one request; each one succeeds or fails on its
/// own.
#[derive(Debug)]
pub struct Pipeline {
    cmds: Vec<ReCmd>,
}

impl View for Pipeline {
    type V = Seq<Seq<WireModel>>;

    closed spec fn view(&self) -> Seq<Seq<WireModel>> {
        cmds_model(self.cmds@)
    }
}

impl Pipeline {
    /// Well-formed: every queued descriptor is.
    pub closed spec fn wf(&self) -> bool {
        all_wf(self.cmds@)
    }

    /// The path, under the store's base URL, that pipelines are sent to.
    pub fn path() -> (r: &'static str)
        ensures
            r@ == "/pipeline"@,
    {
        "/pipeline"
    }

    /// An empty pipeline.
    pub fn new() -> (r: Pipeline)
        ensures
            r@ == Seq::<Seq<WireModel>>::empty(),
            r.wf(),
    {
        let r = Pipeline { cmds: Vec::new() };
        assert(r@ =~= Seq::<Seq<WireModel>>::empty());
        r
    }

    /// Queues a command after those already queued.
    pub fn add_cmd(&mut self, cmd: ReCmd)
        requires
            old(self).wf(),
            cmd.wf(),
        ensures
            final(self)@ == old(self)@.push(cmd@),
            final(self).wf(),
    {
        self.cmds.push(cmd);
        assert(self@ =~= old(self)@.push(cmd@));
    }

    /// Queues several commands, in the order given, after those already
    /// queued.
    pub fn add_cmds(&mut self, cmds: Vec<ReCmd>)
        requires
            old(self).wf(),
            all_wf(cmds@),
        ensures
            final(self)@ == old(self)@ + cmds_model(cmds@),
            final(self).wf(),
    {
        let mut cmds = cmds;
        let ghost c0 = cmds@;
        self.cmds.append(&mut cmds);
        assert(self@ =~= old(self)@ + cmds_model(c0));
    }

    /// The queued commands, in submission order.
    pub fn cmds(&self) -> (r: &Vec<ReCmd>)
        ensures
            cmds_model(r@) == self@,
            self.wf() ==> all_wf(r@),
    {
        &self.cmds
    }

    /// The number of queued commands.
    pub fn len(&self) -> (r: usize)
        ensures
            r == self@.len(),
    {
        self.cmds.len()
    }

    /// Correlates the store's answer with the queued commands: the entries
    /// are handed back as they came, one per command in submission order; a
    /// count that does not match is a decode error.
    pub fn accept_response(&self, resp: Vec<ReResponse<WireValue>>) -> (r: Result<Vec<ReResponse<WireValue>>>)
        ensures
            match pipeline_outcome(self@.len(), envelopes_model(resp@)) {
                Some(_) => r == Ok::<Vec<ReResponse<WireValue>>, ReError>(resp),
                None => r == Err::<Vec<ReResponse<WireValue>>, ReError>(ReError::Decode),
            },
    {
        if resp.len() == self.cmds.len() {
            Ok(resp)
        } else {
            Err(ReError::Decode)
        }
    }
}

/// Commands that the store runs as one indivisible unit.
#[derive(Debug)]
pub struct Transaction {
    cmds: Vec<ReCmd>,
}

impl View for Transaction {
    type V = Seq<Seq<WireModel>>;

    closed spec fn view(&self) -> Seq<Seq<WireModel>> {
        cmds_model(self.cmds@)
    }
}

impl Transaction {
    /// Well-formed: every queued descriptor is.
    pub closed spec fn wf(&self) -> bool {
        all_wf(self.cmds@)
    }

    /// The path, under the store's base URL, that transactions are sent to.
    pub fn path() -> (r: &'static str)
        ensures
            r@ == "/multi-exec"@,
    {
        "/multi-exec"
    }

    /// An empty transaction.
    pub fn new() -> (r: Transaction)
        ensures
            r@ == Seq::<Seq<WireModel>>::empty(),
            r.wf(),
    {
        let r = Transaction { cmds: Vec::new() };
        assert(r@ =~= Seq::<Seq<WireModel>>::empty());
        r
    }

    /// Queues a command after those already queued.
    pub fn add_cmd(&mut self, cmd: ReCmd)
        requires
            old(self).wf(),
            cmd.wf(),
        ensures
            final(self)@ == old(self)@.push(cmd@),
            final(self).wf(),
    {
        self.cmds.push(cmd);
        assert(self@ =~= old(self)@.push(cmd@));
    }

    /// Queues several commands, in the order given, after those already
    /// queued.
    pub fn add_cmds(&mut self, cmds: Vec<ReCmd>)
        requires
            old(self).wf(),
            all_wf(cmds@),
        ensures
            final(self)@ == old(self)@ + cmds_model(cmds@),
            final(self).wf(),
    {
        let mut cmds = cmds;
        let ghost c0 = cmds@;
        self.cmds.append(&mut cmds);
        assert(self@ =~= old(self)@ + cmds_model(c0));
    }

    /// The queued commands, in submission order.
    pub fn cmds(&self) -> (r: &Vec<ReCmd>)
        ensures
            cmds_model(r@) == self@,
            self.wf() ==> all_wf(r@),
    {
        &self.cmds
    }

    /// The number of queued commands.
    pub fn len(&self) -> (r: usize)
        ensures
            r == self@.len(),
    {
        self.cmds.len()
    }

    /// Interprets the store's answer: an outer error means the whole
    /// transaction was rejected and no entries exist; an outer result holds
    /// one entry per queued command, in submission order, each of which may
    /// still carry its own error. A count that does not match is a decode
    /// error.
    pub fn accept_response(&self, resp: ReResponse<Vec<ReResponse<WireValue>>>) -> (r: Result<
        Vec<ReResponse<WireValue>>,
    >)
        ensures
            match resp {
                ReResponse::Error(m) => r == Err::<Vec<ReResponse<WireValue>>, ReError>(ReError::Remote(m)),
                ReResponse::Result(v) => if v@.len() == self@.len() {
                    r == Ok::<Vec<ReResponse<WireValue>>, ReError>(v)
                } else {
                    r == Err::<Vec<ReResponse<WireValue>>, ReError>(ReError::Decode)
                },
            },
            r is Ok <==> transaction_outcome(self@.len(), resp) matches Some(Ok(_)),
    {
        match resp {
            ReResponse::Error(m) => Err(ReError::Remote(m)),
            ReResponse::Result(v) => {
                if v.len() == self.cmds.len() {
                    Ok(v)
                } else {
                    Err(ReError::Decode)
                }
            },
        }
    }
}

/// A pipeline's accepted answer has exactly one entry per queued command and
/// keeps the order in which the store sent them, whether each entry is a
/// result or an error.
pub proof fn lemma_pipeline_one_entry_per_command(n: nat, resp: Seq<EnvelopeModel>)
    ensures
        pipeline_outcome(n, resp) is Some <==> resp.len() == n,
        pipeline_outcome(n, resp) matches Some(v) ==> v.len() == n && v == resp,
{
}

/// A transaction whose outer envelope is an error yields no entries at all;
/// one whose outer envelope is a result yields exactly one entry per queued
/// command, in order.
pub proof fn lemma_transaction_outer_tag(n: nat, outer: ReResponse<Vec<ReResponse<WireValue>>>)
    ensures
        outer is Error ==> transaction_outcome(n, outer) == Some(
            Err::<Seq<EnvelopeModel>, Seq<char>>(outer->Error_0@),
        ),
        transaction_outcome(n, outer) matches Some(Ok(v)) ==> outer is Result && v.len() == n
            && v == envelopes_model(outer->Result_0@),
{
}

} // verus!
