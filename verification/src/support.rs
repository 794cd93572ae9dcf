use crate::traits::{Argument, ArgumentReceiver, ArgumentReceiverExt};
use vstd::prelude::*;

verus! {

/// An argument behind its flag: `--flagname <arg>`.
pub struct Named<'a, A: 'a> {
    dashed_flag_name: &'a str,
    arg: &'a A,
}

impl<'a, A: 'a> Named<'a, A> {
    /// The flag name, dashes included.
    pub closed spec fn flag_name(&self) -> Seq<char> {
        self.dashed_flag_name@
    }

    /// The argument that follows the flag name.
    pub closed spec fn inner(&self) -> &'a A {
        self.arg
    }

    pub fn new(dashed_flag_name: &'a str, arg: &'a A) -> (named: Named<'a, A>)
        ensures
            named.flag_name() == dashed_flag_name@,
            named.inner() == arg,
    {
        Named { dashed_flag_name, arg }
    }
}

impl<'a, A: Argument<String>> Argument<String> for Named<'a, A> {
    /// The flag name, then what the inner argument emits.
    open spec fn emission(&self) -> Seq<Seq<char>> {
        seq![self.flag_name()] + self.inner().emission()
    }

    fn append_to<R: ArgumentReceiver<String>>(&self, r: &mut R) {
        r.arg(self.dashed_flag_name);
        self.arg.append_to(r);
        assert(r.accepted() =~= old(r).accepted() + self.emission());
    }
}

/// An argument receiver that expects exactly one argument.
pub struct SingleArg<ArgType> {
    arg: Option<ArgType>,
}

impl<ArgType: View> ArgumentReceiver<ArgType> for SingleArg<ArgType> {
    closed spec fn accepted(&self) -> Seq<ArgType::V> {
        match self.arg {
            Some(arg) => seq![arg@],
            None => Seq::empty(),
        }
    }

    /// One value in all.
    open spec fn limit(&self) -> Option<nat> {
        Some(1)
    }

    fn one_arg(&mut self, arg: ArgType)
        ensures
            final(self).held() == Some(arg),
    {
        self.arg = Some(arg);
        assert(self.accepted() =~= old(self).accepted().push(arg@));
    }
}

impl<ArgType: View> SingleArg<ArgType> {
    /// The value that was accepted, if any.
    pub closed spec fn held(&self) -> Option<ArgType> {
        self.arg
    }

    /// What was accepted is the value that is held, and nothing where none is.
    pub proof fn lemma_accepted_is_held(&self)
        ensures
            self.accepted() == match self.held() {
                Some(arg) => seq![arg@],
                None => Seq::empty(),
            },
    {
    }

    pub fn new() -> (single: SingleArg<ArgType>)
        ensures
            single.held() is None,
            single.accepted() == Seq::<ArgType::V>::empty(),
    {
        SingleArg { arg: None }
    }

    /// Whether the one value was accepted.
    pub fn is_filled(&self) -> (filled: bool)
        ensures
            filled == self.held() is Some,
            filled == (self.accepted().len() == 1),
    {
        self.arg.is_some()
    }

    /// Hands out the one value that was accepted.
    pub fn finalize<R: ArgumentReceiver<ArgType>>(self) -> (arg: ArgType)
        requires
            self.accepted().len() == 1,
        ensures
            self.held() == Some(arg),
            self.accepted() == seq![arg@],
    {
        match self.arg {
            Some(arg) => arg,
            None => vstd::pervasive::unreached(),
        }
    }
}

/// How a composition that should give exactly one value failed to.
#[derive(Debug, Clone, Copy, PartialEq, Eq, Structural)]
pub enum ArityError {
    /// It gave more than one value.
    TooMany,
    /// It gave no value.
    Missing,
}

impl ArityError {
    /// The error in words.
    pub fn message(&self) -> (text: &'static str)
        ensures
            text@ == match *self {
                ArityError::TooMany => "Only a single argument was expected, not more"@,
                ArityError::Missing => "Exactly one argument was expected"@,
            },
    {
        match self {
            ArityError::TooMany => "Only a single argument was expected, not more",
            ArityError::Missing => "Exactly one argument was expected",
        }
    }
}

/// Takes the one value that an argument emits. An argument that emits none, or
/// more than one, gives the error that says so.
pub fn capture_single<ArgType: View, A: Argument<ArgType>>(arg: &A) -> (captured: Result<
    ArgType,
    ArityError,
>)
    ensures
        match captured {
            Ok(value) => arg.emission() == seq![value@],
            Err(ArityError::Missing) => arg.emission().len() == 0,
            Err(ArityError::TooMany) => arg.emission().len() > 1,
        },
{
    let mut buffer: Vec<ArgType> = Vec::new();
    arg.append_to(&mut buffer);
    assert(buffer.accepted() =~= arg.emission());
    if buffer.len() == 0 {
        Err(ArityError::Missing)
    } else if buffer.len() > 1 {
        Err(ArityError::TooMany)
    } else {
        let value = buffer.pop().unwrap();
        let mut single: SingleArg<ArgType> = SingleArg::new();
        single.one_arg(value);
        let value = single.finalize::<Vec<ArgType>>();
        assert(arg.emission() =~= seq![value@]);
        Ok(value)
    }
}

/// A single conditional argument to a command.
///
/// A verified implementation says when the flag is active. The body given here is
/// for implementations that are not verified, which have nothing to say.
pub trait IsArgumentFlag {
    /// Whether the flag is active.
    open spec fn active(&self) -> bool {
        false
    }

    fn is_set(&self) -> (set: bool)
        ensures
            set == self.active(),
    ;
}

/// A flag name that is emitted where a switch is on.
pub struct FlagArg<'a> {
    dashed_flag_name: &'a str,
    is_set: bool,
}

impl<'a> FlagArg<'a> {
    /// The flag name, dashes included.
    pub closed spec fn flag_name(&self) -> Seq<char> {
        self.dashed_flag_name@
    }

    /// Whether the flag was set when this value was made.
    pub closed spec fn set(&self) -> bool {
        self.is_set
    }

    pub fn new<A: IsArgumentFlag>(dashed_flag_name: &'a str, arg: &A) -> (flag: FlagArg<'a>)
        ensures
            flag.flag_name() == dashed_flag_name@,
            flag.set() == arg.active(),
    {
        FlagArg { dashed_flag_name, is_set: arg.is_set() }
    }
}

impl<'a> Argument<String> for FlagArg<'a> {
    /// The flag name where the flag is set, and nothing where it is not.
    open spec fn emission(&self) -> Seq<Seq<char>> {
        if self.set() {
            seq![self.flag_name()]
        } else {
            Seq::empty()
        }
    }

    fn append_to<R: ArgumentReceiver<String>>(&self, r: &mut R) {
        if self.is_set {
            r.arg(self.dashed_flag_name);
            assert(r.accepted() =~= old(r).accepted() + self.emission());
        } else {
            assert(r.accepted() =~= old(r).accepted() + self.emission());
        }
    }
}

/// A two-state switch: the smallest value that can say whether a flag is active.
#[derive(PartialEq, Eq, Structural, Debug, Copy, Clone)]
pub enum Flag {
    Unset,
    IsSet,
}

impl Default for Flag {
    fn default() -> (flag: Self)
        ensures
            flag == Flag::Unset,
    {
        Flag::Unset
    }
}

impl IsArgumentFlag for Flag {
    open spec fn active(&self) -> bool {
        *self == Flag::IsSet
    }

    fn is_set(&self) -> (set: bool) {
        *self == Flag::IsSet
    }
}

} // verus!
