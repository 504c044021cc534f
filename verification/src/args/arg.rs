//! Positional arguments.

use vstd::prelude::*;
use vstd::std_specs::cmp::PartialEqSpecImpl;
use vstd::string::*;

verus! {

/// A positional argument that a command declares. Whether it is required
/// counts for the command's arity; name and description show on help pages.
#[derive(Debug)]
pub struct Arg {
    pub name: String,
    pub desc: String,
    pub required: bool,
}

/// What an [`Arg`] holds, as plain values.
pub struct ArgView {
    pub name: Seq<char>,
    pub desc: Seq<char>,
    pub required: bool,
}

impl View for Arg {
    type V = ArgView;

    open spec fn view(&self) -> ArgView {
        ArgView { name: self.name@, desc: self.desc@, required: self.required }
    }
}

/// The views of `args`, in order.
pub open spec fn arg_views(args: Seq<Arg>) -> Seq<ArgView> {
    args.map_values(|a: Arg| a@)
}

impl Default for Arg {
    /// The optional argument without name or description.
    fn default() -> (arg: Self)
        ensures
            arg@ == (ArgView { name: Seq::empty(), desc: Seq::empty(), required: false }),
    {
        Arg { name: String::new(), desc: String::new(), required: false }
    }
}

impl Clone for Arg {
    fn clone(&self) -> (arg: Self)
        ensures
            arg == *self,
    {
        Arg { name: self.name.clone(), desc: self.desc.clone(), required: self.required }
    }
}

impl PartialEq for Arg {
    fn eq(&self, other: &Self) -> (same: bool) {
        self.name == other.name && self.desc == other.desc && self.required == other.required
    }
}

impl PartialEqSpecImpl for Arg {
    open spec fn obeys_eq_spec() -> bool {
        true
    }

    open spec fn eq_spec(&self, other: &Self) -> bool {
        self@ == other@
    }
}

impl Arg {
    /// An optional argument called `name`, without description.
    pub fn new(name: &str) -> (arg: Self)
        ensures
            arg@ == (ArgView { name: name@, desc: Seq::empty(), required: false }),
    {
        Arg { name: String::from_str(name), desc: String::new(), required: false }
    }

    /// The argument made of the parts of `arg`.
    pub fn flex(arg: Arg) -> (made: Self)
        ensures
            made == arg,
    {
        Self { name: arg.name, desc: arg.desc, required: arg.required }
    }

    /// Replaces the description.
    pub fn description(self, content: &str) -> (arg: Self)
        ensures
            arg@ == (ArgView { desc: content@, ..self@ }),
    {
        let mut this = self;
        this.desc = String::from_str(content);
        Self { name: this.name, desc: this.desc, required: this.required }
    }

    /// Marks the argument as required.
    pub fn required(self) -> (arg: Self)
        ensures
            arg@ == (ArgView { required: true, ..self@ }),
    {
        let mut this = self;
        this.required = true;
        Self { name: this.name, desc: this.desc, required: this.required }
    }
}

} // verus!
