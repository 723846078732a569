use vstd::prelude::*;

verus! {

/// A thing which can receive values and returns the result of each receipt.
///
/// `send` takes the sink by shared reference so that one sink can receive many values,
/// and takes the value by ownership. A sink states which values it accepts
/// (`accepts`) and which results it may answer a value with (`yields`): a sink whose
/// handler has effects may answer the same value differently on two calls, so the
/// contract is a relation and not a function.
pub trait Sink {
    type TInput;
    type TResult;

    /// The values that `send` may be called with; by default, any.
    open spec fn accepts(&self, input: Self::TInput) -> bool {
        true
    }

    /// The results that `send` may answer `input` with; by default, any.
    open spec fn yields(&self, input: Self::TInput, result: Self::TResult) -> bool {
        true
    }

    /// Accepts an item and returns the result of its receipt (possibly unit).
    fn send(&self, input: Self::TInput) -> (result: Self::TResult)
        requires
            self.accepts(input),
        ensures
            self.yields(input, result),
    ;
}

/// Something that can be handed values of type `TInput` and answers nothing.
pub trait Dispatcher<TInput> {
    /// The values that `dispatch` may be called with; by default, every value.
    open spec fn dispatch_accepts(&self, input: TInput) -> bool {
        true
    }

    /// `input` has been handed over and taken in; by default, any.
    open spec fn dispatched(&self, input: TInput) -> bool {
        true
    }

    fn dispatch(&self, input: TInput)
        requires
            self.dispatch_accepts(input),
        ensures
            self.dispatched(input),
    ;
}

/// Every sink that answers unit is a dispatcher of its input type.
impl<TSink> Dispatcher<TSink::TInput> for TSink where TSink: Sink<TResult = ()> {
    open spec fn dispatch_accepts(&self, input: TSink::TInput) -> bool {
        self.accepts(input)
    }

    /// A dispatched value is one the sink was sent and answered.
    open spec fn dispatched(&self, input: TSink::TInput) -> bool {
        self.yields(input, ())
    }

    fn dispatch(&self, input: TSink::TInput) {
        self.send(input)
    }
}

/// A thing which produces values on request.
pub trait Source {
    type TOutput;

    /// The values that `next` may produce; by default, any.
    open spec fn produces(&self, output: Self::TOutput) -> bool {
        true
    }

    fn next(&self) -> (output: Self::TOutput)
        ensures
            self.produces(output),
    ;
}

/// A value that starts from its default and is then brought to a given state.
pub trait Initializable: Default + Sized {
    type TState;

    /// `after` is what `apply_state` makes of `before` given `state`; by default, any.
    open spec fn state_applied(before: Self, state: Self::TState, after: Self) -> bool {
        true
    }

    /// The default value with `state` applied to it.
    fn init(state: Self::TState) -> (value: Self)
        ensures
            exists|d: Self| call_ensures(Self::default, (), d) && Self::state_applied(d, state, value),
    {
        let mut default = Self::default();
        let ghost d = default;
        default.apply_state(state);
        assert(call_ensures(Self::default, (), d) && Self::state_applied(d, state, default));
        default
    }

    fn apply_state(&mut self, state: Self::TState)
        ensures
            Self::state_applied(*old(self), state, *final(self)),
    ;
}

} // verus!
