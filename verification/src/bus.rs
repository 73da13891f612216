//! What an operation asks of its surroundings, and what it is told back.

use vstd::prelude::*;
use crate::w5100::spi_stream::SpiStream;

verus! {

/// A failure reported by the SPI transport, kept as the transport's own
/// one-byte code.
#[derive(Clone, Copy, Debug, PartialEq, Eq, Structural)]
pub struct SpiError(pub u8);

/// The next thing to be done on behalf of an operation in progress.
#[derive(Clone, Copy, Debug, PartialEq, Eq, Structural)]
pub enum Action {
    /// Exchange exactly these four bytes with the chip, with chip-select
    /// asserted around them and released after them on every path, and
    /// report the byte received at wire position 3. A [`Transaction`]
    /// says how.
    Exchange(SpiStream),
    /// Yield the processor for this many milliseconds.
    Sleep(u64),
    /// Read the byte at this index of the client's buffer.
    LeaseRead(usize),
    /// Write this byte at this index of the client's buffer.
    LeaseWrite(usize, u8),
}

/// What came of an [`Action`].
#[derive(Clone, Copy, Debug, PartialEq, Eq, Structural)]
pub enum Event {
    /// The exchange went through; this is the byte at wire position 3.
    Exchanged(u8),
    /// The transport reported a failure.
    TransportFailed(SpiError),
    /// The sleep is over.
    Slept,
    /// The byte read from the client's buffer.
    LeaseByte(u8),
    /// The byte was written to the client's buffer.
    LeaseWritten,
    /// The client's buffer is gone: the client went away.
    LeaseGone,
}

/// Where a resumed operation stands: still in progress, or finished.
#[derive(Debug, PartialEq, Eq)]
pub enum Poll<M, T> {
    Pending(M),
    Ready(T),
}

impl Action {
    /// Whether `ev` is a possible outcome of this action.
    pub open spec fn answered_by(self, ev: Event) -> bool {
        match self {
            Action::Exchange(_) => ev is Exchanged || ev is TransportFailed,
            Action::Sleep(_) => ev is Slept,
            Action::LeaseRead(_) => ev is LeaseByte || ev is LeaseGone,
            Action::LeaseWrite(_, _) => ev is LeaseWritten || ev is LeaseGone,
        }
    }

    /// Tests whether `ev` is a possible outcome of this action.
    pub fn accepts(&self, ev: &Event) -> (ok: bool)
        ensures
            ok == self.answered_by(*ev),
    {
        match (self, ev) {
            (Action::Exchange(_), Event::Exchanged(_)) => true,
            (Action::Exchange(_), Event::TransportFailed(_)) => true,
            (Action::Sleep(_), Event::Slept) => true,
            (Action::LeaseRead(_), Event::LeaseByte(_)) => true,
            (Action::LeaseRead(_), Event::LeaseGone) => true,
            (Action::LeaseWrite(_, _), Event::LeaseWritten) => true,
            (Action::LeaseWrite(_, _), Event::LeaseGone) => true,
            _ => false,
        }
    }
}

/// What an exchange asks of the SPI transport, step by step.
#[derive(Clone, Copy, Debug, PartialEq, Eq, Structural)]
pub enum BusAction {
    /// Lock the transport to the chip and assert its chip-select.
    Lock,
    /// Exchange exactly these four bytes.
    Exchange(SpiStream),
    /// Release chip-select and the transport.
    Release,
}

/// What came of a [`BusAction`].
#[derive(Clone, Copy, Debug, PartialEq, Eq, Structural)]
pub enum BusEvent {
    /// Chip-select is asserted and the transport is ours.
    Locked,
    /// The four bytes went through; this is the byte received at wire
    /// position 3.
    Exchanged(u8),
    /// Chip-select is released.
    Released,
    /// The transport reported a failure.
    Failed(SpiError),
}

impl BusAction {
    /// Whether `ev` is a possible outcome of this action.
    pub open spec fn answered_by(self, ev: BusEvent) -> bool {
        match self {
            BusAction::Lock => ev is Locked || ev is Failed,
            BusAction::Exchange(_) => ev is Exchanged || ev is Failed,
            BusAction::Release => ev is Released || ev is Failed,
        }
    }

    /// Tests whether `ev` is a possible outcome of this action.
    pub fn accepts(&self, ev: &BusEvent) -> (ok: bool)
        ensures
            ok == self.answered_by(*ev),
    {
        match (self, ev) {
            (_, BusEvent::Failed(_)) => true,
            (BusAction::Lock, BusEvent::Locked) => true,
            (BusAction::Exchange(_), BusEvent::Exchanged(_)) => true,
            (BusAction::Release, BusEvent::Released) => true,
            _ => false,
        }
    }
}

/// Where one exchange with the chip stands.
#[derive(Clone, Copy, Debug, PartialEq, Eq, Structural)]
pub enum TransactionPhase {
    /// Chip-select is being asserted.
    Locking,
    /// Chip-select is asserted; the four bytes are being exchanged.
    Exchanging,
    /// The exchange is over, with this outcome; chip-select is being
    /// released.
    Releasing(Event),
}

/// One exchange with the chip, in progress: chip-select is asserted for
/// exactly one command stream and released after it on every path.
#[derive(Clone, Copy, Debug, PartialEq, Eq, Structural)]
pub struct Transaction {
    pub cmd: SpiStream,
    pub phase: TransactionPhase,
}

impl Transaction {
    /// The exchange of `cmd` before its first action.
    pub open spec fn start(cmd: SpiStream) -> Transaction {
        Transaction { cmd, phase: TransactionPhase::Locking }
    }

    /// What holds of the exchange at every step: what is reported after
    /// the release is an outcome of an exchange.
    pub open spec fn wf(self) -> bool {
        self.phase matches TransactionPhase::Releasing(out) ==> out is Exchanged || out
            is TransportFailed
    }

    /// Whether chip-select is asserted.
    pub open spec fn locked(self) -> bool {
        self.phase is Exchanging || self.phase is Releasing
    }

    /// What the exchange is waiting for.
    pub open spec fn pending(self) -> BusAction {
        match self.phase {
            TransactionPhase::Locking => BusAction::Lock,
            TransactionPhase::Exchanging => BusAction::Exchange(self.cmd),
            TransactionPhase::Releasing(_) => BusAction::Release,
        }
    }

    /// The exchange after `ev`.
    ///
    /// If chip-select cannot be asserted the exchange fails at once, and
    /// nothing is to be released. Once it is asserted the four bytes are
    /// exchanged, and whatever comes of that, chip-select is released
    /// next. Then the exchange ends with the byte received, or with the
    /// failure of the four bytes' exchange; a failure of the release
    /// itself is passed over. Nothing is tried again.
    pub open spec fn step(self, ev: BusEvent) -> Poll<Transaction, Event> {
        match self.phase {
            TransactionPhase::Locking => match ev {
                BusEvent::Failed(e) => Poll::Ready(Event::TransportFailed(e)),
                _ => Poll::Pending(Transaction { phase: TransactionPhase::Exchanging, ..self }),
            },
            TransactionPhase::Exchanging => match ev {
                BusEvent::Failed(e) => Poll::Pending(
                    Transaction {
                        phase: TransactionPhase::Releasing(Event::TransportFailed(e)),
                        ..self
                    },
                ),
                BusEvent::Exchanged(b) => Poll::Pending(
                    Transaction { phase: TransactionPhase::Releasing(Event::Exchanged(b)), ..self },
                ),
                _ => Poll::Pending(self),
            },
            TransactionPhase::Releasing(out) => Poll::Ready(out),
        }
    }

    /// Begins the exchange of `cmd`.
    pub fn begin(cmd: SpiStream) -> (tx: Transaction)
        ensures
            tx == Transaction::start(cmd),
            tx.wf(),
            !tx.locked(),
    {
        Transaction { cmd, phase: TransactionPhase::Locking }
    }

    /// What the exchange is waiting for: the action to perform next.
    pub fn action(&self) -> (a: BusAction)
        ensures
            a == self.pending(),
    {
        match self.phase {
            TransactionPhase::Locking => BusAction::Lock,
            TransactionPhase::Exchanging => BusAction::Exchange(self.cmd),
            TransactionPhase::Releasing(_) => BusAction::Release,
        }
    }

    /// Takes what came of the awaited action and goes on.
    pub fn resume(self, ev: BusEvent) -> (r: Poll<Transaction, Event>)
        requires
            self.wf(),
            self.pending().answered_by(ev),
        ensures
            r == self.step(ev),
            r matches Poll::Pending(tx) ==> tx.wf() && tx.locked() && tx.cmd == self.cmd,
            r matches Poll::Ready(out) ==> Action::Exchange(self.cmd).answered_by(out),
    {
        let cmd = self.cmd;
        match self.phase {
            TransactionPhase::Locking => match ev {
                BusEvent::Failed(e) => Poll::Ready(Event::TransportFailed(e)),
                _ => Poll::Pending(Transaction { cmd, phase: TransactionPhase::Exchanging }),
            },
            TransactionPhase::Exchanging => match ev {
                BusEvent::Failed(e) => Poll::Pending(
                    Transaction { cmd, phase: TransactionPhase::Releasing(Event::TransportFailed(e)) },
                ),
                BusEvent::Exchanged(b) => Poll::Pending(
                    Transaction { cmd, phase: TransactionPhase::Releasing(Event::Exchanged(b)) },
                ),
                _ => Poll::Pending(self),
            },
            TransactionPhase::Releasing(out) => Poll::Ready(out),
        }
    }
}

/// No exchange leaves the bus locked: an exchange ends only while
/// chip-select is not asserted, or with its release; and once
/// chip-select is asserted, whatever comes of the four bytes, the
/// release is what the exchange asks for next.
pub proof fn lemma_transaction_releases(tx: Transaction, ev: BusEvent)
    requires
        tx.wf(),
        tx.pending().answered_by(ev),
    ensures
        tx.step(ev) is Ready ==> !tx.locked() || tx.pending() == BusAction::Release,
        tx.phase is Exchanging ==> (tx.step(ev) matches Poll::Pending(next) && next.pending()
            == BusAction::Release),
        tx.step(ev) matches Poll::Pending(next) ==> next.wf() && next.locked() && next.cmd
            == tx.cmd,
        (tx.step(ev) matches Poll::Pending(next) && next.phase is Exchanging) ==> ev
            == BusEvent::Locked,
{
}

/// What one exchange is on a sound bus and on a failing one. Chip-select
/// is asserted, the four bytes of the stream are exchanged, chip-select
/// is released, and the exchange yields the byte received. If the four
/// bytes fail, chip-select is released all the same and the failure is
/// yielded. If chip-select cannot be asserted, that failure is yielded
/// and nothing else is asked for.
pub proof fn lemma_transaction_sequence(cmd: SpiStream, byte: u8, e: SpiError, end: BusEvent)
    requires
        end is Released || end is Failed,
    ensures
        ({
            let t0 = Transaction::start(cmd);
            let t1 = Transaction { phase: TransactionPhase::Exchanging, ..t0 };
            let good = Transaction { phase: TransactionPhase::Releasing(Event::Exchanged(byte)), ..t0 };
            let bad = Transaction {
                phase: TransactionPhase::Releasing(Event::TransportFailed(e)),
                ..t0
            };
            &&& t0.pending() == BusAction::Lock
            &&& t0.step(BusEvent::Failed(e)) == Poll::<Transaction, Event>::Ready(
                Event::TransportFailed(e),
            )
            &&& t0.step(BusEvent::Locked) == Poll::<Transaction, Event>::Pending(t1)
            &&& t1.pending() == BusAction::Exchange(cmd)
            &&& t1.step(BusEvent::Exchanged(byte)) == Poll::<Transaction, Event>::Pending(good)
            &&& t1.step(BusEvent::Failed(e)) == Poll::<Transaction, Event>::Pending(bad)
            &&& good.pending() == BusAction::Release
            &&& bad.pending() == BusAction::Release
            &&& good.step(end) == Poll::<Transaction, Event>::Ready(Event::Exchanged(byte))
            &&& bad.step(end) == Poll::<Transaction, Event>::Ready(Event::TransportFailed(e))
        }),
{
}

} // verus!
