use vstd::prelude::*;

verus! {

/// The failures a `VecSink` can report.
#[derive(Debug)]
pub enum Error {
    Overflow,
}

/// A simple accumulator which captures every value sent to it, in order.
pub struct VecSink<TInput> where TInput: Clone {
    data: Vec<TInput>,
}

impl<TInput> View for VecSink<TInput> where TInput: Clone {
    type V = Seq<TInput>;

    /// The values received so far, oldest first.
    closed spec fn view(&self) -> Seq<TInput> {
        self.data@
    }
}

impl<TInput> VecSink<TInput> where TInput: Clone {
    /// An accumulator that has received nothing.
    pub fn new() -> (sink: Self)
        ensures
            sink@ == Seq::<TInput>::empty(),
    {
        VecSink { data: Vec::new() }
    }

    /// A copy of the values received so far, oldest first.
    pub fn data(&self) -> (data: Vec<TInput>)
        ensures
            data.len() == self@.len(),
            forall|i: int| 0 <= i < self@.len() ==> cloned::<TInput>(self@[i], #[trigger] data@[i]),
    {
        self.data.clone()
    }

    fn push(&mut self, input: TInput) -> (index: Result<usize, Error>)
        ensures
            final(self)@ == old(self)@.push(input),
            index == Ok::<usize, Error>(old(self)@.len() as usize),
    {
        self.data.push(input);
        Ok(self.data.len() - 1)
    }

    /// Appends `input` to the received values and answers with its index.
    pub fn send(&mut self, input: TInput) -> (index: Result<usize, Error>)
        ensures
            final(self)@ == old(self)@.push(input),
            index == Ok::<usize, Error>(old(self)@.len() as usize),
    {
        self.push(input)
    }
}

/// The index a `VecSink` answers a value with is where that value sits in its data, and
/// the values received before keep their places.
pub proof fn lemma_index_locates_value<TInput>(
    before: Seq<TInput>,
    after: Seq<TInput>,
    input: TInput,
    index: usize,
)
    requires
        after == before.push(input),
        index == before.len(),
    ensures
        after[index as int] == input,
        after.len() == before.len() + 1,
        forall|i: int| 0 <= i < before.len() ==> after[i] == before[i],
{
}

} // verus!
