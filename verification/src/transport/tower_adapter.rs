//! A tower service used as a transport: each request sent is answered by the
//! service, and the answer is handed out once, as the next incoming message.
use vstd::prelude::*;

verus! {

/// Where the sink is: idle, waiting for the service's answer, or holding it
/// for the reader.
#[derive(Debug, PartialEq)]
pub enum SinkState<T> {
    Ready,
    Sending,
    Yield { output: Option<T> },
}

/// A tower sink: its state and how many readers and writers wait to be woken.
#[derive(Debug, PartialEq)]
pub struct TowerSink<T> {
    pub state: SinkState<T>,
    pub rx_waiting: usize,
    pub tx_waiting: usize,
}

/// What polling the service's answer gave.
#[derive(Debug, PartialEq)]
pub enum Answer<T, E> {
    Pending,
    Done(Result<T, E>),
}

/// The outcome of a poll.
#[derive(Debug, PartialEq)]
pub enum SinkPoll<T, E> {
    Pending,
    Ready(Result<T, E>),
}

impl<T> TowerSink<T> {
    /// An idle sink.
    pub fn new() -> (r: Self)
        ensures
            r.state == SinkState::<T>::Ready,
            r.rx_waiting == 0,
            r.tx_waiting == 0,
    {
        TowerSink { state: SinkState::Ready, rx_waiting: 0, tx_waiting: 0 }
    }

    /// Readiness to send, once the service is ready. An answer that arrives
    /// here is dropped; an answer held for the reader is given up, readers
    /// are woken and the writer waits.
    pub fn poll_ready<E>(&mut self, answer: Answer<T, E>) -> (r: SinkPoll<(), E>)
        requires
            old(self).tx_waiting < usize::MAX,
        ensures
            match old(self).state {
                SinkState::Ready => r == SinkPoll::<(), E>::Ready(Ok(())) && *final(self) == *old(self),
                SinkState::Sending => match answer {
                    Answer::Pending => r == SinkPoll::<(), E>::Pending && *final(self) == *old(self),
                    Answer::Done(Err(e)) => r == SinkPoll::<(), E>::Ready(Err(e)) && *final(self) == *old(self),
                    Answer::Done(Ok(_)) => r == SinkPoll::<(), E>::Ready(Ok(())) && final(self).state
                        == SinkState::<T>::Ready && final(self).rx_waiting == old(self).rx_waiting
                        && final(self).tx_waiting == old(self).tx_waiting,
                },
                SinkState::Yield { .. } => r == SinkPoll::<(), E>::Pending && final(self).state
                    == SinkState::<T>::Ready && final(self).rx_waiting == 0 && final(self).tx_waiting
                    == old(self).tx_waiting + 1,
            },
    {
        match self.state {
            SinkState::Ready => SinkPoll::Ready(Ok(())),
            SinkState::Sending => match answer {
                Answer::Pending => SinkPoll::Pending,
                Answer::Done(Err(e)) => SinkPoll::Ready(Err(e)),
                Answer::Done(Ok(_)) => {
                    self.state = SinkState::Ready;
                    SinkPoll::Ready(Ok(()))
                },
            },
            SinkState::Yield { .. } => {
                self.state = SinkState::Ready;
                self.rx_waiting = 0;
                self.tx_waiting = self.tx_waiting + 1;
                SinkPoll::Pending
            },
        }
    }

    /// Sends a message: a request goes to the service; anything else is
    /// dropped, for the service answers requests only.
    pub fn start_send(&mut self, is_request: bool)
        ensures
            is_request ==> final(self).state == SinkState::<T>::Sending,
            !is_request ==> final(self).state == SinkState::<T>::Ready,
            final(self).rx_waiting == old(self).rx_waiting,
            final(self).tx_waiting == old(self).tx_waiting,
    {
        if is_request {
            self.state = SinkState::Sending;
        } else {
            self.state = SinkState::Ready;
        }
    }

    /// Flushing, once the service is ready: waits for the answer; an answer
    /// that arrives, or one held, is given up and readers are woken.
    pub fn poll_flush<E>(&mut self, answer: Answer<T, E>) -> (r: SinkPoll<(), E>)
        ensures
            match old(self).state {
                SinkState::Ready => r == SinkPoll::<(), E>::Ready(Ok(())) && *final(self) == *old(self),
                SinkState::Sending => match answer {
                    Answer::Pending => r == SinkPoll::<(), E>::Pending && *final(self) == *old(self),
                    Answer::Done(Err(e)) => r == SinkPoll::<(), E>::Ready(Err(e)) && *final(self) == *old(self),
                    Answer::Done(Ok(_)) => r == SinkPoll::<(), E>::Ready(Ok(())) && final(self).state
                        == SinkState::<T>::Ready && final(self).rx_waiting == 0 && final(self).tx_waiting
                        == old(self).tx_waiting,
                },
                SinkState::Yield { .. } => r == SinkPoll::<(), E>::Ready(Ok(())) && final(self).state
                    == SinkState::<T>::Ready && final(self).rx_waiting == 0 && final(self).tx_waiting
                    == old(self).tx_waiting,
            },
    {
        match self.state {
            SinkState::Ready => SinkPoll::Ready(Ok(())),
            SinkState::Sending => match answer {
                Answer::Pending => SinkPoll::Pending,
                Answer::Done(Err(e)) => SinkPoll::Ready(Err(e)),
                Answer::Done(Ok(output)) => {
                    self.state = SinkState::Yield { output: Some(output) };
                    self.state = SinkState::Ready;
                    self.rx_waiting = 0;
                    SinkPoll::Ready(Ok(()))
                },
            },
            SinkState::Yield { .. } => {
                self.state = SinkState::Ready;
                self.rx_waiting = 0;
                SinkPoll::Ready(Ok(()))
            },
        }
    }

    /// Reading: a held answer is handed out once and writers are woken;
    /// otherwise the reader waits.
    pub fn poll_next(&mut self) -> (r: Option<T>)
        requires
            old(self).state matches SinkState::Yield { output } ==> output is Some,
            old(self).rx_waiting < usize::MAX,
        ensures
            match old(self).state {
                SinkState::Yield { output } => r == output && final(self).state == SinkState::<T>::Ready
                    && final(self).tx_waiting == 0 && final(self).rx_waiting == old(self).rx_waiting,
                _ => r is None && final(self).state == old(self).state && final(self).rx_waiting
                    == old(self).rx_waiting + 1 && final(self).tx_waiting == old(self).tx_waiting,
            },
    {
        let mut state = SinkState::Ready;
        std::mem::swap(&mut state, &mut self.state);
        match state {
            SinkState::Yield { output } => {
                self.tx_waiting = 0;
                output
            },
            other => {
                self.state = other;
                self.rx_waiting = self.rx_waiting + 1;
                None
            },
        }
    }
}

} // verus!
