//! Flags.

use vstd::prelude::*;
use vstd::std_specs::cmp::PartialEqSpecImpl;
use vstd::string::*;

verus! {

/// A named switch that a command declares. Flags are listed on help pages;
/// dispatch does not look for them among the arguments.
#[derive(Debug)]
pub struct Flag {
    pub name: String,
    pub short: String,
    pub desc: String,
}

/// What a [`Flag`] holds, as plain values.
pub struct FlagView {
    pub name: Seq<char>,
    pub short: Seq<char>,
    pub desc: Seq<char>,
}

impl View for Flag {
    type V = FlagView;

    open spec fn view(&self) -> FlagView {
        FlagView { name: self.name@, short: self.short@, desc: self.desc@ }
    }
}

/// The views of `flags`, in order.
pub open spec fn flag_views(flags: Seq<Flag>) -> Seq<FlagView> {
    flags.map_values(|f: Flag| f@)
}

impl Default for Flag {
    /// The flag without name, short name or description.
    fn default() -> (flag: Self)
        ensures
            flag@ == (FlagView { name: Seq::empty(), short: Seq::empty(), desc: Seq::empty() }),
    {
        Flag { name: String::new(), short: String::new(), desc: String::new() }
    }
}

impl Clone for Flag {
    fn clone(&self) -> (flag: Self)
        ensures
            flag == *self,
    {
        Flag { name: self.name.clone(), short: self.short.clone(), desc: self.desc.clone() }
    }
}

impl PartialEq for Flag {
    fn eq(&self, other: &Self) -> (same: bool) {
        self.name == other.name && self.short == other.short && self.desc == other.desc
    }
}

impl PartialEqSpecImpl for Flag {
    open spec fn obeys_eq_spec() -> bool {
        true
    }

    open spec fn eq_spec(&self, other: &Self) -> bool {
        self@ == other@
    }
}

impl Flag {
    /// A flag called `name`, without short name or description.
    pub fn new(name: &str) -> (flag: Self)
        ensures
            flag@ == (FlagView { name: name@, short: Seq::empty(), desc: Seq::empty() }),
    {
        Flag { name: String::from_str(name), short: String::new(), desc: String::new() }
    }

    /// The flag made of the parts of `flag`.
    pub fn flex(flag: Flag) -> (made: Self)
        ensures
            made == flag,
    {
        Self { name: flag.name, short: flag.short, desc: flag.desc }
    }

    /// Replaces the description.
    pub fn description(self, content: &str) -> (flag: Self)
        ensures
            flag@ == (FlagView { desc: content@, ..self@ }),
    {
        let mut this = self;
        this.desc = String::from_str(content);
        Self { name: this.name, short: this.short, desc: this.desc }
    }

    /// Replaces the short name.
    pub fn short(self, short_name: &str) -> (flag: Self)
        ensures
            flag@ == (FlagView { short: short_name@, ..self@ }),
    {
        let mut this = self;
        this.short = String::from_str(short_name);
        Self { name: this.name, short: this.short, desc: this.desc }
    }
}

} // verus!
