//! Flattens a profile's samples into one self-contained record per sample.

use crate::fx_processed_profile::{
    FrameTable, FrameTableEntry, IndexIntoStackTable, IndexIntoStringTable, Milliseconds,
    NativeSymbolTable, NativeSymbolTableEntry, Profile, SampleTableEntry, StackTable, Thread,
    Weight,
};
use crate::profile_table_iterator::TableLookup;
use vstd::prelude::*;

verus! {

/// Whether an index reference names a row of a table of `len` rows.
pub open spec fn in_table(ix: i64, len: nat) -> bool {
    0 <= ix && ix < len
}

/// The tables of one thread. Indices stored in a table are meaningful only
/// within its own thread, so a record keeps the tables it was resolved against.
#[derive(Copy, Clone)]
pub struct ThreadTables<'a> {
    pub stack_table: &'a StackTable,
    pub frame_table: &'a FrameTable,
    pub string_table: &'a Vec<String>,
    pub symbol_table: &'a NativeSymbolTable,
}

/// One sample, flattened.
pub struct TransposedSample<'a> {
    /// The sample's index into the stack table; `None` when no stack was captured.
    pub stack_frame: Option<IndexIntoStackTable>,
    /// The frame that the stack row names; `None` when there is no stack or
    /// when a reference lies outside its table.
    pub frame: Option<FrameTableEntry>,
    /// The frame's native symbol, when it has one inside the symbol table.
    pub symbol_table_entry: Option<NativeSymbolTableEntry>,
    pub sample_time: Milliseconds,
    pub weight: Option<Weight>,
    /// The frame's implementation label, as an index into the string table.
    pub string_table_index: Option<IndexIntoStringTable>,
    pub thread_tables: ThreadTables<'a>,
}

impl<'a> TransposedSample<'a> {
    /// The frame's implementation label, read from the thread's string table;
    /// `None` when the frame has none or its index lies outside the table.
    pub fn implementation_label(&self) -> (r: Option<String>)
        ensures
            match self.string_table_index {
                Some(i) => if in_table(i, self.thread_tables.string_table@.len()) {
                    r == Some(self.thread_tables.string_table@[i as int])
                } else {
                    r is None
                },
                None => r is None,
            },
    {
        match self.string_table_index {
            Some(i) => {
                let n = self.thread_tables.string_table.len();
                if i < 0 || i as u64 >= n as u64 {
                    None
                } else {
                    Some(self.thread_tables.string_table[i as usize].clone())
                }
            },
            None => None,
        }
    }
}

/// The tables of `thread`.
pub open spec fn tables_of<'a>(thread: &'a Thread) -> ThreadTables<'a> {
    ThreadTables {
        stack_table: &thread.stackTable,
        frame_table: &thread.frameTable,
        string_table: &thread.stringTable,
        symbol_table: &thread.nativeSymbols,
    }
}

impl<'a> ThreadTables<'a> {
    pub open spec fn wf(self) -> bool {
        &&& self.stack_table.wf()
        &&& self.frame_table.wf()
        &&& self.symbol_table.wf()
    }

    /// The frame reached in one step from a sample's stack reference: the
    /// stack row's own frame. Its ancestors (`prefix`) are not followed.
    pub open spec fn frame_spec(self, stack: Option<IndexIntoStackTable>) -> Option<
        FrameTableEntry,
    > {
        match stack {
            None => None,
            Some(i) => if in_table(i, self.stack_table.len_spec()) {
                let f = self.stack_table.row_spec(i as int).frame;
                if in_table(f, self.frame_table.len_spec()) {
                    Some(self.frame_table.row_spec(f as int))
                } else {
                    None
                }
            } else {
                None
            },
        }
    }

    pub open spec fn symbol_spec(self, frame: Option<FrameTableEntry>) -> Option<
        NativeSymbolTableEntry,
    > {
        match frame {
            Some(fe) => match fe.nativeSymbol {
                Some(n) => if in_table(n, self.symbol_table.len_spec()) {
                    Some(self.symbol_table.row_spec(n as int))
                } else {
                    None
                },
                None => None,
            },
            None => None,
        }
    }

    pub open spec fn record_spec(self, s: SampleTableEntry) -> TransposedSample<'a> {
        let frame = self.frame_spec(s.stack);
        TransposedSample {
            stack_frame: s.stack,
            frame: frame,
            symbol_table_entry: self.symbol_spec(frame),
            sample_time: s.time,
            weight: s.weight,
            string_table_index: match frame {
                Some(fe) => fe.implementation,
                None => None,
            },
            thread_tables: self,
        }
    }

    /// The frame that a sample's stack reference leads to, or `None` when
    /// there is none or a reference lies outside its table.
    pub fn frame_for_stack(&self, stack: Option<IndexIntoStackTable>) -> (r: Option<FrameTableEntry>)
        requires
            self.wf(),
        ensures
            r == self.frame_spec(stack),
    {
        match stack {
            None => None,
            Some(i) => {
                let stacks = self.stack_table.length();
                if i < 0 || i as u64 >= stacks as u64 {
                    return None;
                }
                let f = self.stack_table.lookup(i as usize).frame;
                let frames = self.frame_table.length();
                if f < 0 || f as u64 >= frames as u64 {
                    None
                } else {
                    Some(self.frame_table.lookup(f as usize))
                }
            },
        }
    }

    /// The native symbol of a frame, or `None` when the frame has none or its
    /// reference lies outside the symbol table.
    pub fn symbol_for_frame(&self, frame: Option<FrameTableEntry>) -> (r: Option<
        NativeSymbolTableEntry,
    >)
        requires
            self.wf(),
        ensures
            r == self.symbol_spec(frame),
    {
        match frame {
            Some(fe) => match fe.nativeSymbol {
                Some(n) => {
                    let symbols = self.symbol_table.length();
                    if n < 0 || n as u64 >= symbols as u64 {
                        None
                    } else {
                        Some(self.symbol_table.lookup(n as usize))
                    }
                },
                None => None,
            },
            None => None,
        }
    }

    /// The record for one sample row.
    pub fn resolve(&self, s: &SampleTableEntry) -> (r: TransposedSample<'a>)
        requires
            self.wf(),
        ensures
            r == self.record_spec(*s),
    {
        let frame = self.frame_for_stack(s.stack);
        let symbol = self.symbol_for_frame(frame);
        let string_table_index = match frame {
            Some(fe) => fe.implementation,
            None => None,
        };
        TransposedSample {
            stack_frame: s.stack,
            frame: frame,
            symbol_table_entry: symbol,
            sample_time: s.time,
            weight: s.weight,
            string_table_index: string_table_index,
            thread_tables: *self,
        }
    }
}

/// The records of one thread, one per sample row, in row order.
pub open spec fn thread_records<'a>(thread: &'a Thread) -> Seq<TransposedSample<'a>> {
    Seq::new(
        thread.samples.len_spec(),
        |k: int| tables_of(thread).record_spec(thread.samples.row_spec(k)),
    )
}

/// The records of the first `n` threads of a profile, thread after thread.
pub open spec fn profile_records<'a>(profile: &'a Profile, n: int) -> Seq<TransposedSample<'a>>
    decreases n,
{
    if n <= 0 {
        Seq::empty()
    } else {
        profile_records(profile, n - 1) + thread_records(&profile.threads@[n - 1])
    }
}

/// The records of one thread's samples, in row order.
pub fn transpose_thread<'a>(thread: &'a Thread) -> (r: Vec<TransposedSample<'a>>)
    requires
        thread.wf(),
    ensures
        r@ == thread_records(thread),
{
    let thread_tables = ThreadTables {
        stack_table: &thread.stackTable,
        frame_table: &thread.frameTable,
        string_table: &thread.stringTable,
        symbol_table: &thread.nativeSymbols,
    };
    let mut acc: Vec<TransposedSample<'a>> = Vec::new();
    let mut it = thread.samples.iter();
    loop
        invariant
            thread.wf(),
            thread_tables == tables_of(thread),
            it.source() == &thread.samples,
            it.position() <= thread.samples.len_spec(),
            acc@.len() == it.position(),
            forall|k: int|
                0 <= k < acc@.len() ==> acc@[k] == #[trigger] thread_records(thread)[k],
        ensures
            acc@ == thread_records(thread),
        decreases thread.samples.len_spec() - it.position(),
    {
        match it.next() {
            Some(s) => {
                let rec = thread_tables.resolve(&s);
                acc.push(rec);
            },
            None => {
                assert(acc@ =~= thread_records(thread));
                break;
            },
        }
    }
    acc
}

/// One record per sample of every thread: the threads in order, and within a
/// thread the samples in row order. Samples without a stack, without a native
/// symbol, or whose references fall outside their tables all get a record.
pub fn transpose_samples<'a>(profile: &'a Profile) -> (r: Vec<TransposedSample<'a>>)
    requires
        profile.wf(),
    ensures
        r@ == profile_records(profile, profile.threads@.len() as int),
{
    let mut acc: Vec<TransposedSample<'a>> = Vec::new();
    let mut t: usize = 0;
    while t < profile.threads.len()
        invariant
            profile.wf(),
            t <= profile.threads@.len(),
            acc@ == profile_records(profile, t as int),
        decreases profile.threads@.len() - t,
    {
        let thread = &profile.threads[t];
        assert(thread.wf());
        let mut records = transpose_thread(thread);
        acc.append(&mut records);
        t = t + 1;
    }
    acc
}

/// A sample whose stack row names a frame outside the frame table is not
/// dropped: its record keeps the sample's stack index and time, and reports
/// neither frame nor symbol. (Validation looks only at column sizes, so such a
/// thread passes it.)
pub proof fn lemma_out_of_range_frame_unresolved(thread: &Thread, k: int)
    requires
        thread.wf(),
        0 <= k < thread.samples.len_spec(),
        thread.samples.row_spec(k).stack is Some,
        in_table(thread.samples.row_spec(k).stack->0, thread.stackTable.len_spec()),
        !in_table(
            thread.stackTable.row_spec(thread.samples.row_spec(k).stack->0 as int).frame,
            thread.frameTable.len_spec(),
        ),
    ensures
        k < thread_records(thread).len(),
        thread_records(thread)[k].stack_frame == thread.samples.row_spec(k).stack,
        thread_records(thread)[k].sample_time == thread.samples.row_spec(k).time,
        thread_records(thread)[k].frame is None,
        thread_records(thread)[k].symbol_table_entry is None,
{
}

} // verus!
