use vstd::prelude::*;

verus! {

/// A sink for arguments. The sink is described by the views of the values it has
/// accepted so far, oldest first, and by the number of values it takes in all,
/// where that number is bounded.
///
/// A verified implementation says what both are. The bodies given here are for
/// implementations that are not verified, which have nothing to say.
pub trait ArgumentReceiver<ArgType: View = String>: Sized {
    /// The views of the values accepted so far, in the order of their arrival.
    open spec fn accepted(&self) -> Seq<ArgType::V> {
        Seq::empty()
    }

    /// The number of values the receiver takes over its whole life, or `None`
    /// where it takes any number.
    open spec fn limit(&self) -> Option<nat> {
        None
    }

    /// Pass a single argument.
    fn one_arg(&mut self, arg: ArgType)
        requires
            fits(old(self).limit(), old(self).accepted().len(), 1),
        ensures
            final(self).accepted() == old(self).accepted().push(arg@),
            final(self).limit() == old(self).limit(),
    ;

    /// Pass multiple arguments at once, in their order.
    fn multiple_args(&mut self, args: Vec<ArgType>)
        requires
            fits(old(self).limit(), old(self).accepted().len(), args@.len()),
        ensures
            final(self).accepted() == old(self).accepted() + views_of(args@),
            final(self).limit() == old(self).limit(),
    {
        let ghost all = args@;
        for arg in it: args.into_iter()
            invariant
                it.seq() == all,
                self.accepted() == old(self).accepted() + views_of(all.take(it.index() as int)),
                self.limit() == old(self).limit(),
                fits(old(self).limit(), old(self).accepted().len(), all.len()),
        {
            assert(views_of(all.take(it.index() + 1)) =~= views_of(all.take(it.index() as int)).push(
                arg@,
            ));
            assert(self.accepted().len() == old(self).accepted().len() + it.index());
            self.one_arg(arg);
        }
        assert(all.take(all.len() as int) =~= all);
    }
}

/// Whether a receiver with this limit that holds `held` values takes `n` more.
pub open spec fn fits(limit: Option<nat>, held: nat, n: nat) -> bool {
    limit matches Some(l) ==> held + n <= l
}

/// Whether `n` more values fit into the receiver.
pub open spec fn has_room<ArgType: View, R: ArgumentReceiver<ArgType>>(r: &R, n: nat) -> bool {
    fits(r.limit(), r.accepted().len(), n)
}

/// The views of a sequence of values, one for one.
pub open spec fn views_of<T: View>(values: Seq<T>) -> Seq<T::V> {
    Seq::new(values.len(), |i: int| values[i]@)
}

/// Things that can act as program arguments, such as flags and file names. Such a
/// thing is described by its emission: the views of the values it hands to a
/// receiver, in their order.
///
/// A verified implementation says what the emission is. The body given here is
/// for implementations that are not verified, which have nothing to say.
pub trait Argument<ArgType: View = String> {
    /// The views of the values that `append_to` hands over, in their order.
    open spec fn emission(&self) -> Seq<ArgType::V> {
        Seq::empty()
    }

    /// Append the argument to the receiver.
    fn append_to<R: ArgumentReceiver<ArgType>>(&self, cmd: &mut R)
        requires
            has_room(old(cmd), self.emission().len()),
        ensures
            final(cmd).accepted() == old(cmd).accepted() + self.emission(),
            final(cmd).limit() == old(cmd).limit(),
    ;
}

impl<T: View> ArgumentReceiver<T> for Vec<T> {
    open spec fn accepted(&self) -> Seq<T::V> {
        views_of(self@)
    }

    open spec fn limit(&self) -> Option<nat> {
        None
    }

    fn one_arg(&mut self, arg: T)
        ensures
            final(self)@ == old(self)@.push(arg),
    {
        self.push(arg);
        assert(views_of(self@) =~= views_of(old(self)@).push(arg@));
    }

    fn multiple_args(&mut self, args: Vec<T>)
        ensures
            final(self)@ == old(self)@ + args@,
    {
        let mut args = args;
        let ghost all = args@;
        self.append(&mut args);
        assert(views_of(self@) =~= views_of(old(self)@) + views_of(all));
    }
}

/// Methods for receivers of strings that take borrowed values and make the owned
/// ones themselves.
pub trait ArgumentReceiverExt: ArgumentReceiver<String> {
    /// Pass a single argument, after converting it.
    fn arg(&mut self, arg: &str) -> (recv: &mut Self)
        requires
            fits(old(self).limit(), old(self).accepted().len(), 1),
        ensures
            recv.accepted() == old(self).accepted().push(arg@),
            recv.limit() == old(self).limit(),
            *final(self) == *final(recv),
    ;

    /// Pass multiple arguments in their order, after converting them.
    fn args(&mut self, args: &[&str]) -> (recv: &mut Self)
        requires
            fits(old(self).limit(), old(self).accepted().len(), args@.len()),
        ensures
            recv.accepted() == old(self).accepted() + views_of(args@),
            recv.limit() == old(self).limit(),
            *final(self) == *final(recv),
    ;
}

impl<Recv: ArgumentReceiver<String>> ArgumentReceiverExt for Recv {
    fn arg(&mut self, arg: &str) -> (recv: &mut Self) {
        self.one_arg(arg.to_owned());
        self
    }

    fn args(&mut self, args: &[&str]) -> (recv: &mut Self) {
        let mut owned: Vec<String> = Vec::new();
        let mut idx: usize = 0;
        while idx < args.len()
            invariant
                idx <= args.len(),
                owned.len() == idx,
                forall|i: int| 0 <= i < idx ==> (#[trigger] owned[i])@ == args[i]@,
            decreases args.len() - idx,
        {
            owned.push(args[idx].to_owned());
            idx = idx + 1;
        }
        assert(views_of(owned@) =~= views_of(args@));
        self.multiple_args(owned);
        self
    }
}

/// A program with the arguments that it is to be started with: what a process
/// builder holds before the process is spawned.
#[derive(Debug, Clone, PartialEq, Eq)]
pub struct CommandLine {
    pub program: String,
    pub args: Vec<String>,
}

impl CommandLine {
    /// A command line for `program` without arguments.
    pub fn new(program: &str) -> (cmd: CommandLine)
        ensures
            cmd.program@ == program@,
            cmd.args@ == Seq::<String>::empty(),
            cmd.accepted() == Seq::<Seq<char>>::empty(),
    {
        let cmd = CommandLine { program: program.to_owned(), args: Vec::new() };
        assert(cmd.accepted() =~= Seq::<Seq<char>>::empty());
        cmd
    }
}

impl ArgumentReceiver<String> for CommandLine {
    /// Each accepted value is an argument of the command.
    open spec fn accepted(&self) -> Seq<Seq<char>> {
        views_of(self.args@)
    }

    /// A command takes any number of arguments.
    open spec fn limit(&self) -> Option<nat> {
        None
    }

    fn one_arg(&mut self, arg: String)
        ensures
            final(self).program == old(self).program,
            final(self).args@ == old(self).args@.push(arg),
    {
        self.args.push(arg);
        assert(views_of(self.args@) =~= views_of(old(self).args@).push(arg@));
    }

    fn multiple_args(&mut self, args: Vec<String>)
        ensures
            final(self).program == old(self).program,
            final(self).args@ == old(self).args@ + args@,
    {
        let mut args = args;
        let ghost all = args@;
        self.args.append(&mut args);
        assert(views_of(self.args@) =~= views_of(old(self).args@) + views_of(all));
    }
}

/// Building a command line straight from an argument.
pub trait ArgumentExt: Argument<String> {
    /// Construct a new command line for `program` and give it the argument.
    fn to_command(&self, program: &str) -> (cmd: CommandLine)
        ensures
            cmd.program@ == program@,
            cmd.accepted() == self.emission(),
    ;
}

impl<A: Argument<String>> ArgumentExt for A {
    fn to_command(&self, program: &str) -> (cmd: CommandLine) {
        let mut args: Vec<String> = Vec::new();
        self.append_to(&mut args);
        let mut cmd = CommandLine::new(program);
        cmd.multiple_args(args);
        assert(cmd.accepted() =~= self.emission());
        cmd
    }
}

/// Extending a receiver by an argument, to enable inversion of control for
/// [`Argument::append_to`].
pub trait CommandExt<ArgType: View>: ArgumentReceiver<ArgType> {
    /// Extend the command by `arg`.
    fn extend<A: Argument<ArgType>>(&mut self, arg: A) -> (cmd: &mut Self)
        requires
            fits(old(self).limit(), old(self).accepted().len(), arg.emission().len()),
        ensures
            cmd.accepted() == old(self).accepted() + arg.emission(),
            cmd.limit() == old(self).limit(),
            *final(self) == *final(cmd),
    ;
}

impl CommandExt<String> for CommandLine {
    fn extend<A: Argument<String>>(&mut self, arg: A) -> (cmd: &mut Self)
        ensures
            cmd.program == old(self).program,
    {
        let mut args: Vec<String> = Vec::new();
        arg.append_to(&mut args);
        self.multiple_args(args);
        self
    }
}

} // verus!
