use error_core::{Generator, GeneratorIterator, GeneratorState};

/// Counts upward and completes at a limit.
struct Counter {
    current: u32,
    limit: u32,
}

impl Generator for Counter {
    type Yield = u32;
    type Return = &'static str;

    fn resume(&mut self) -> GeneratorState<u32, &'static str> {
        if self.current < self.limit {
            let v = self.current;
            self.current += 1;
            GeneratorState::Yielded(v)
        } else {
            GeneratorState::Complete("finished")
        }
    }
}

/// Completes once, then would yield again if it were ever resumed after
/// completion.
struct Resurrecting {
    resumes: u32,
}

impl Generator for Resurrecting {
    type Yield = u32;
    type Return = ();

    fn resume(&mut self) -> GeneratorState<u32, ()> {
        self.resumes += 1;
        if self.resumes == 1 {
            GeneratorState::Complete(())
        } else {
            GeneratorState::Yielded(self.resumes)
        }
    }
}

#[test]
fn yields_every_item_then_ends() {
    let mut it = GeneratorIterator::new(Counter { current: 0, limit: 3 });
    assert!(!it.done());
    assert_eq!(it.next(), Some(0));
    assert_eq!(it.next(), Some(1));
    assert_eq!(it.next(), Some(2));
    assert!(!it.done());
    assert_eq!(it.next(), None);
    assert!(it.done());
}

#[test]
fn empty_producer_ends_immediately() {
    let mut it = GeneratorIterator::new(Counter { current: 5, limit: 5 });
    assert_eq!(it.next(), None);
    assert!(it.done());
}

#[test]
fn completion_is_terminal_and_sticky() {
    let mut it = GeneratorIterator::new(Resurrecting { resumes: 0 });
    assert_eq!(it.next(), None);
    // The producer would yield on any further resumption, but completion
    // is sticky: the producer is never resumed again.
    assert_eq!(it.next(), None);
    assert_eq!(it.next(), None);
    assert!(it.done());
}

#[test]
fn pulls_only_what_is_asked_for() {
    let mut it = GeneratorIterator::new(Counter { current: 0, limit: 1000 });
    assert_eq!(it.next(), Some(0));
    assert_eq!(it.next(), Some(1));
    assert!(!it.done());
}
