//! Where a simulation writes its observables.

use vstd::prelude::*;

use crate::sim::vector::Vector;

verus! {

/// A trait for streams that write to coordinate files, such as '.xyz' files.
pub trait VectorsOutput<const N: usize, T, V> where V: Vector<N, Element = T> {
    type Error;

    /// Write the coordinates of the atoms in all groups to the stream.
    fn write(&mut self, step: usize, vectors: &[V]) -> Result<(), Self::Error>;
}

/// A trait for streams that write the values of all observables of a step.
pub trait ObservablesOutput<const N: usize, T, V, E> where V: Vector<N, Element = T> {
    type Input;

    type Error: From<E>;

    /// Writes the observables of a step, or the first error among them.
    fn write<I: Iterator<Item = Result<Self::Input, E>>>(
        &mut self,
        step: usize,
        observables: &mut I,
    ) -> Result<(), Self::Error>;
}

/// A trait for streams that write the values of one kind of observable.
pub trait ObservableOutput<T> {
    type Error;

    fn write_step(&mut self, step: usize) -> Result<(), Self::Error>;

    fn write_observable(&mut self, value: T) -> Result<(), Self::Error>;

    fn new_line(&mut self) -> Result<(), Self::Error>;
}

/// Observables together with the stream they are written to.
pub struct Observables<O, S> {
    pub observables: O,
    pub stream: S,
}

/// An enum which contains the output stream for the two kinds of observables.
#[allow(inconsistent_fields)]
pub enum ObservableOutputOption<Q, D, S> {
    /// Nothing is written.
    Empty,
    Quantum(Observables<Q, S>),
    Debug(Observables<D, S>),
    Shared { quantum: Q, debug: D, stream: S },
    Separate { quantum: Observables<Q, S>, debug: Observables<D, S> },
}

/// The streams of an [`ObservableOutputOption`], without the observables.
pub enum ObservableStreamOption<S> {
    /// There is no stream.
    Empty,
    One(S),
    Shared(S),
    All { quantum: S, debug: S },
}

/// An enum which contains the observables, if any.
pub enum ObservableOption<Q, D> {
    /// Nothing is observed.
    Empty,
    Quantum(Q),
    Debug(D),
    All { quantum: Q, debug: D },
}

impl<Q, D, S> ObservableOutputOption<Q, D, S> {
    /// The quantum observables, the debug observables and the streams of an
    /// output option, each where the option has one.
    pub open spec fn spec_split(self) -> (Option<Q>, Option<D>, ObservableStreamOption<S>) {
        match self {
            ObservableOutputOption::Empty => (None, None, ObservableStreamOption::Empty),
            ObservableOutputOption::Quantum(quantum) => (
                Some(quantum.observables),
                None,
                ObservableStreamOption::One(quantum.stream),
            ),
            ObservableOutputOption::Debug(debug) => (
                None,
                Some(debug.observables),
                ObservableStreamOption::One(debug.stream),
            ),
            ObservableOutputOption::Shared { quantum, debug, stream } => (
                Some(quantum),
                Some(debug),
                ObservableStreamOption::Shared(stream),
            ),
            ObservableOutputOption::Separate { quantum, debug } => (
                Some(quantum.observables),
                Some(debug.observables),
                ObservableStreamOption::All { quantum: quantum.stream, debug: debug.stream },
            ),
        }
    }

    /// Takes the option apart into its observables and its streams.
    pub fn split(self) -> (parts: (Option<Q>, Option<D>, ObservableStreamOption<S>))
        ensures
            parts == self.spec_split(),
    {
        match self {
            ObservableOutputOption::Empty => (None, None, ObservableStreamOption::Empty),
            ObservableOutputOption::Quantum(quantum) => (
                Some(quantum.observables),
                None,
                ObservableStreamOption::One(quantum.stream),
            ),
            ObservableOutputOption::Debug(debug) => (
                None,
                Some(debug.observables),
                ObservableStreamOption::One(debug.stream),
            ),
            ObservableOutputOption::Shared { quantum, debug, stream } => (
                Some(quantum),
                Some(debug),
                ObservableStreamOption::Shared(stream),
            ),
            ObservableOutputOption::Separate { quantum, debug } => (
                Some(quantum.observables),
                Some(debug.observables),
                ObservableStreamOption::All { quantum: quantum.stream, debug: debug.stream },
            ),
        }
    }

    /// The same option over mutable borrows of what this one holds.
    pub fn as_deref_mut(&mut self) -> (borrowed: ObservableOutputOption<&mut Q, &mut D, &mut S>)
        ensures
            match borrowed {
                ObservableOutputOption::Empty => *old(self) is Empty && *final(self) is Empty,
                ObservableOutputOption::Quantum(part) => *old(self) == ObservableOutputOption::<
                    Q,
                    D,
                    S,
                >::Quantum(Observables { observables: *part.observables, stream: *part.stream })
                    && *final(self) == ObservableOutputOption::<Q, D, S>::Quantum(
                    Observables {
                        observables: *final(part.observables),
                        stream: *final(part.stream),
                    },
                ),
                ObservableOutputOption::Debug(part) => *old(self) == ObservableOutputOption::<
                    Q,
                    D,
                    S,
                >::Debug(Observables { observables: *part.observables, stream: *part.stream })
                    && *final(self) == ObservableOutputOption::<Q, D, S>::Debug(
                    Observables {
                        observables: *final(part.observables),
                        stream: *final(part.stream),
                    },
                ),
                ObservableOutputOption::Shared { quantum, debug, stream } => *old(self) == (
                ObservableOutputOption::<Q, D, S>::Shared {
                    quantum: *quantum,
                    debug: *debug,
                    stream: *stream,
                }) && *final(self) == (ObservableOutputOption::<Q, D, S>::Shared {
                    quantum: *final(quantum),
                    debug: *final(debug),
                    stream: *final(stream),
                }),
                ObservableOutputOption::Separate { quantum, debug } => *old(self) == (
                ObservableOutputOption::<Q, D, S>::Separate {
                    quantum: Observables {
                        observables: *quantum.observables,
                        stream: *quantum.stream,
                    },
                    debug: Observables { observables: *debug.observables, stream: *debug.stream },
                }) && *final(self) == (ObservableOutputOption::<Q, D, S>::Separate {
                    quantum: Observables {
                        observables: *final(quantum.observables),
                        stream: *final(quantum.stream),
                    },
                    debug: Observables {
                        observables: *final(debug.observables),
                        stream: *final(debug.stream),
                    },
                }),
            },
    {
        match self {
            ObservableOutputOption::Empty => ObservableOutputOption::Empty,
            ObservableOutputOption::Quantum(quantum) => ObservableOutputOption::Quantum(
                Observables { observables: &mut quantum.observables, stream: &mut quantum.stream },
            ),
            ObservableOutputOption::Debug(debug) => ObservableOutputOption::Debug(
                Observables { observables: &mut debug.observables, stream: &mut debug.stream },
            ),
            ObservableOutputOption::Shared { quantum, debug, stream } => {
                ObservableOutputOption::Shared { quantum, debug, stream }
            },
            ObservableOutputOption::Separate { quantum, debug } => {
                ObservableOutputOption::Separate {
                    quantum: Observables {
                        observables: &mut quantum.observables,
                        stream: &mut quantum.stream,
                    },
                    debug: Observables {
                        observables: &mut debug.observables,
                        stream: &mut debug.stream,
                    },
                }
            },
        }
    }
}

} // verus!
