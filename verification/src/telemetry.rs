//! When the audio thread publishes each telemetry stream.
//!
//! Once per rendered block: `meter_out`, `voices` and `modulation` go out
//! every block; `spectrum` and `scope` every second block (an FFT per
//! block would be wasted at small block sizes); the sticky `wavetable`
//! preview only when the selected table differs from the one last sent,
//! so it goes out once per change.

use vstd::prelude::*;

verus! {

/// What to publish for one block besides the every-block streams.
#[derive(Clone, Copy, PartialEq, Eq, Debug, Structural)]
pub struct Publish {
    /// Publish `spectrum` and `scope`.
    pub spectrum: bool,
    /// Publish the `wavetable` preview of the selected table.
    pub table: bool,
}

/// What block `blocks + 1` publishes when `last` was the table last sent
/// and `table` is selected.
pub open spec fn publish_for(blocks: int, last: Option<usize>, table: usize) -> Publish {
    Publish { spectrum: (blocks + 1) % 2 == 0, table: last != Some(table) }
}

/// Block counter and the table whose preview was last published.
pub struct Schedule {
    /// Blocks published so far.
    blocks: u64,
    /// Table index whose preview was last published.
    table_sent: Option<usize>,
}

impl Schedule {
    /// Blocks published so far.
    pub closed spec fn block_count(&self) -> int {
        self.blocks as int
    }

    /// Table index whose preview was last published.
    pub closed spec fn last_table(&self) -> Option<usize> {
        self.table_sent
    }

    /// No block yet, no preview sent.
    pub fn new() -> (s: Schedule)
        ensures
            s.block_count() == 0,
            s.last_table() is None,
    {
        Schedule { blocks: 0, table_sent: None }
    }

    /// Blocks published so far.
    pub fn blocks(&self) -> (n: u64)
        ensures
            n == self.block_count(),
    {
        self.blocks
    }

    /// Count one more block, with `table` selected, and say what to
    /// publish for it: the spectrum and scope on every second block, the
    /// preview when `table` is not the one last sent.
    pub fn next_block(&mut self, table: usize) -> (p: Publish)
        requires
            old(self).block_count() < u64::MAX,
        ensures
            final(self).block_count() == old(self).block_count() + 1,
            p == publish_for(old(self).block_count(), old(self).last_table(), table),
            final(self).last_table() == Some(table),
            p.spectrum <==> (old(self).block_count() + 1) % 2 == 0,
            p.table <==> old(self).last_table() != Some(table),
    {
        self.blocks = self.blocks + 1;
        let spectrum = self.blocks % 2 == 0;
        let table_changed = match self.table_sent {
            Some(t) => t != table,
            None => true,
        };
        if table_changed {
            self.table_sent = Some(table);
        }
        Publish { spectrum, table: table_changed }
    }
}

/// Of two consecutive blocks exactly one publishes the spectrum, and once
/// a block has published with `table` selected, the next block with the
/// same table does not send its preview again.
pub proof fn lemma_cadence(blocks: int, last: Option<usize>, table: usize)
    requires
        blocks >= 0,
    ensures
        publish_for(blocks, last, table).spectrum != publish_for(blocks + 1, Some(table), table).spectrum,
        !publish_for(blocks + 1, Some(table), table).table,
        publish_for(blocks, last, table).spectrum <==> blocks % 2 == 1,
        publish_for(blocks, last, table).table <==> last != Some(table),
        publish_for(0, None, table).table,
{
}

} // verus!
