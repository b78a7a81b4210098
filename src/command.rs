use vstd::prelude::*;

use crate::wire::{WireModel, WireValue};

verus! {

/// The models of a sequence of wire values, in order.
pub open spec fn wires_model(vs: Seq<WireValue>) -> Seq<WireModel> {
    vs.map_values(|v: WireValue| v@)
}

/// The wire sequence of a command named `name` with arguments `args`.
pub open spec fn descriptor_model(name: Seq<char>, args: Seq<WireModel>) -> Seq<WireModel> {
    seq![WireModel::Str(name)] + args
}

/// A command descriptor: the command name followed by its positional
/// arguments. The name never changes and arguments are only ever appended.
#[derive(Debug)]
pub struct ReCmd {
    elems: Vec<WireValue>,
}

impl View for ReCmd {
    type V = Seq<WireModel>;

    closed spec fn view(&self) -> Seq<WireModel> {
        wires_model(self.elems@)
    }
}

impl ReCmd {
    /// Well-formed: non-empty, with a string name first.
    pub open spec fn wf(&self) -> bool {
        self@.len() >= 1 && self@[0] is Str
    }

    /// The command name.
    pub open spec fn name(&self) -> Seq<char> {
        self@[0]->Str_0
    }

    /// The arguments after the name.
    pub open spec fn args(&self) -> Seq<WireModel> {
        self@.drop_first()
    }

    /// A descriptor holding only the command name.
    pub fn new(command: &str) -> (r: ReCmd)
        ensures
            r@ == descriptor_model(command@, Seq::empty()),
            r.wf(),
    {
        let mut elems: Vec<WireValue> = Vec::new();
        elems.push(WireValue::from_str(command));
        let r = ReCmd { elems };
        assert(r@ =~= descriptor_model(command@, Seq::empty()));
        r
    }

    /// A descriptor with the given name and arguments, in order.
    pub fn with_args(command: &str, args: Vec<WireValue>) -> (r: ReCmd)
        ensures
            r@ == descriptor_model(command@, wires_model(args@)),
            r.wf(),
    {
        let mut r = ReCmd::new(command);
        r.add_args(args);
        r
    }

    /// Appends several arguments, in the order given.
    pub fn add_args(&mut self, args: Vec<WireValue>)
        requires
            old(self).wf(),
        ensures
            final(self)@ == old(self)@ + wires_model(args@),
            final(self).wf(),
            final(self).name() == old(self).name(),
    {
        let mut args = args;
        let ghost a0 = wires_model(args@);
        let mut rest: Vec<WireValue> = Vec::new();
        // Move the arguments out from the back, then append them in order.
        while args.len() > 0
            invariant
                wires_model(args@) + wires_model(rest@).reverse() == a0,
            decreases args.len(),
        {
            let v = args.pop().unwrap();
            proof {
                assert(wires_model(args@) + wires_model(rest@.push(v)).reverse() =~= a0) by {
                    assert(wires_model(rest@.push(v)).reverse() =~= seq![v@] + wires_model(rest@).reverse());
                }
            }
            rest.push(v);
        }
        assert(wires_model(rest@).reverse() =~= a0);
        while rest.len() > 0
            invariant
                self@ + wires_model(rest@).reverse() == old(self)@ + a0,
                self.wf(),
                self.name() == old(self).name(),
            decreases rest.len(),
        {
            let v = rest.pop().unwrap();
            proof {
                assert(wires_model(rest@.push(v)).reverse() =~= seq![v@] + wires_model(rest@).reverse());
                assert(self@.push(v@) + wires_model(rest@).reverse() =~= self@ + (seq![v@] + wires_model(rest@).reverse()));
            }
            self.add_arg(v);
        }
        assert(self@ =~= self@ + wires_model(rest@).reverse());
    }

    /// Appends one argument.
    pub fn add_arg(&mut self, arg: WireValue)
        requires
            old(self).wf(),
        ensures
            final(self)@ == old(self)@.push(arg@),
            final(self).wf(),
            final(self).name() == old(self).name(),
    {
        self.elems.push(arg);
        assert(self@ =~= old(self)@.push(arg@));
    }

    /// Appends a key and then a value.
    pub fn add_pair(&mut self, k: WireValue, v: WireValue)
        requires
            old(self).wf(),
        ensures
            final(self)@ == old(self)@.push(k@).push(v@),
            final(self).wf(),
            final(self).name() == old(self).name(),
    {
        self.add_arg(k);
        self.add_arg(v);
    }

    /// The wire values of the descriptor, name first.
    pub fn elems(&self) -> (r: &Vec<WireValue>)
        ensures
            wires_model(r@) == self@,
    {
        &self.elems
    }

    /// The number of wire values, name included.
    pub fn len(&self) -> (r: usize)
        ensures
            r == self@.len(),
    {
        self.elems.len()
    }
}

/// A descriptor built from a name and `n` arguments has `n + 1` elements, the
/// first of which is the name exactly as given.
pub proof fn lemma_descriptor_shape(name: Seq<char>, args: Seq<WireModel>)
    ensures
        descriptor_model(name, args).len() == args.len() + 1,
        descriptor_model(name, args)[0] == WireModel::Str(name),
        descriptor_model(name, args).drop_first() == args,
{
    assert(descriptor_model(name, args).drop_first() =~= args);
}

/// What every concrete command offers: its descriptor, and appending further
/// arguments while it is being built.
pub trait Command {
    /// The model of this command's descriptor.
    spec fn descriptor(&self) -> Seq<WireModel>;

    /// Well-formed: the descriptor is non-empty and starts with the name.
    spec fn cmd_wf(&self) -> bool;

    /// The command's descriptor.
    fn as_cmd(&self) -> (r: &ReCmd)
        requires
            self.cmd_wf(),
        ensures
            r@ == self.descriptor(),
            r.wf(),
    ;

    /// The command's descriptor, taking the command apart; used to queue it
    /// in a batch.
    fn into_cmd(self) -> (r: ReCmd)
        requires
            self.cmd_wf(),
        ensures
            r@ == self.descriptor(),
            r.wf(),
    ;

    /// Appends one optional argument.
    fn set_options(&mut self, opt: WireValue)
        requires
            old(self).cmd_wf(),
        ensures
            final(self).cmd_wf(),
            final(self).descriptor() == old(self).descriptor().push(opt@),
    ;

    /// Appends an option's key and then its value.
    fn set_options_with_arg(&mut self, key: WireValue, value: WireValue)
        requires
            old(self).cmd_wf(),
        ensures
            final(self).cmd_wf(),
            final(self).descriptor() == old(self).descriptor().push(key@).push(value@),
    {
        self.set_options(key);
        self.set_options(value);
    }
}

} // verus!
