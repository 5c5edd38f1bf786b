//! The typed model of a processed profile: each table is a set of parallel
//! columns and a declared length; rows refer to one another by integer position.

use crate::profile_table_iterator::{TableIterator, TableLookup};
use crate::table_address::{Address, TableAddress};
use vstd::prelude::*;

verus! {

pub type Array<T> = Vec<T>;

pub type ArrayQ<T> = Array<Option<T>>;

pub type IndexIntoStackTable = i64;

pub type IndexIntoSamplesTable = i64;

pub type IndexIntoRawMarkerTable = i64;

pub type IndexIntoFrameTable = i64;

pub type IndexIntoStringTable = i64;

pub type IndexIntoFuncTable = i64;

pub type IndexIntoResourceTable = TableAddress;

pub type IndexIntoLibs = i64;

pub type IndexIntoNativeSymbolTable = i64;

pub type IndexIntoCategoryList = i64;

pub type IndexIntoSubcategoryListForCategory = i64;

pub type resourceTypeEnum = i64;

pub type ThreadIndex = i64;

pub type IndexIntoJsTracerEvents = i64;

pub type CounterIndex = i64;

pub type TabID = i64;

pub type InnerWindowID = i64;

pub type Pid = String;

pub type Weight = i64;

pub type UniqueStringArray = Array<String>;

/// A time in milliseconds, held as the bit pattern of its IEEE-754 double so
/// that it passes through the model unchanged.
#[derive(Debug, Clone, Copy, PartialEq, Eq, Structural)]
pub struct Milliseconds {
    pub bits: u64,
}

/// A thread identifier: most often an integer, but merged profiles may carry
/// a string.
#[derive(Debug, Clone, PartialEq)]
pub enum Tid {
    String(String),
    Integer(u32),
}

impl Tid {
    /// A copy of this identifier.
    pub fn duplicate(&self) -> (r: Tid)
        ensures
            r == *self,
    {
        match self {
            Tid::String(s) => Tid::String(s.clone()),
            Tid::Integer(i) => Tid::Integer(*i),
        }
    }
}

/// The tables whose columns are checked against their declared length.
#[derive(Debug, Clone, Copy, PartialEq, Eq, Structural)]
pub enum TableKind {
    Stack,
    Frame,
    Func,
    NativeSymbols,
    Samples,
    Resource,
}

/// A column whose number of cells differs from its table's declared length.
#[derive(Debug, Clone, Copy, PartialEq, Eq)]
pub struct ColumnMismatch {
    pub table: TableKind,
    pub column: &'static str,
    pub expected: u64,
    pub found: usize,
}

impl ColumnMismatch {
    /// The report names column `name`, which holds `len` cells, a number other
    /// than the declared length.
    pub open spec fn reports(self, name: &str, len: nat) -> bool {
        &&& self.column@ == name@
        &&& self.found == len
        &&& self.found as int != self.expected as int
    }
}

/// Compares one column's size with the declared length.
fn check_column(table: TableKind, column: &'static str, expected: u64, found: usize) -> (r: Result<
    (),
    ColumnMismatch,
>)
    ensures
        r is Ok <==> found as int == expected as int,
        r is Err ==> r->Err_0 == (ColumnMismatch { table, column, expected, found }),
{
    if found as u128 == expected as u128 {
        Ok(())
    } else {
        Err(ColumnMismatch { table, column, expected, found })
    }
}

// ---------------------------------------------------------------------------
// Stack table
#[derive(Debug, PartialEq)]
pub struct StackTable {
    pub frame: Array<IndexIntoFrameTable>,
    pub category: Array<IndexIntoCategoryList>,
    pub prefix: ArrayQ<IndexIntoStackTable>,
    pub length: u64,
}

#[derive(Debug, PartialEq, Clone, Copy)]
pub struct StackTableEntry {
    pub frame: IndexIntoFrameTable,
    pub category: IndexIntoCategoryList,
    pub prefix: Option<IndexIntoStackTable>,
}

impl StackTable {
    /// A pass over the rows, from the first one.
    pub fn iter(&self) -> (it: TableIterator<'_, StackTable, StackTableEntry>)
        ensures
            it.source() == self,
            it.position() == 0,
    {
        TableIterator::from(self)
    }

    /// Checks every column against the declared length.
    pub fn validate(&self) -> (r: Result<(), ColumnMismatch>)
        ensures
            r is Ok <==> self.wf(),
            r is Err ==> r->Err_0.table == TableKind::Stack && r->Err_0.expected == self.length,
            r is Err ==> {
                ||| r->Err_0.reports("frame", self.frame@.len())
                ||| r->Err_0.reports("category", self.category@.len())
                ||| r->Err_0.reports("prefix", self.prefix@.len())
            },
    {
        check_column(TableKind::Stack, "frame", self.length, self.frame.len())?;
        check_column(TableKind::Stack, "category", self.length, self.category.len())?;
        check_column(TableKind::Stack, "prefix", self.length, self.prefix.len())?;
        Ok(())
    }
}

impl TableLookup<StackTableEntry> for StackTable {
    open spec fn wf(&self) -> bool {
        &&& self.frame@.len() == self.length
        &&& self.category@.len() == self.length
        &&& self.prefix@.len() == self.length
    }

    open spec fn len_spec(&self) -> nat {
        self.length as nat
    }

    open spec fn row_spec(&self, ix: int) -> StackTableEntry {
        StackTableEntry {
            frame: self.frame@[ix],
            category: self.category@[ix],
            prefix: self.prefix@[ix],
        }
    }

    fn length(&self) -> (r: usize) {
        self.frame.len()
    }

    fn lookup(&self, ix: usize) -> (e: StackTableEntry) {
        StackTableEntry {
            frame: self.frame[ix],
            category: self.category[ix],
            prefix: self.prefix[ix],
        }
    }
}

// ---------------------------------------------------------------------------
// Frame table
#[derive(Debug, PartialEq)]
pub struct FrameTable {
    pub address: Array<TableAddress>,
    pub inlineDepth: Array<i32>,
    pub category: ArrayQ<IndexIntoCategoryList>,
    pub subcategory: ArrayQ<IndexIntoSubcategoryListForCategory>,
    pub func: ArrayQ<IndexIntoFuncTable>,
    pub nativeSymbol: ArrayQ<IndexIntoNativeSymbolTable>,
    pub innerWindowID: ArrayQ<InnerWindowID>,
    pub implementation: ArrayQ<IndexIntoStringTable>,
    pub line: ArrayQ<u32>,
    pub column: ArrayQ<u32>,
    pub length: u32,
}

#[derive(Debug, PartialEq, Clone, Copy)]
pub struct FrameTableEntry {
    pub address: TableAddress,
    pub inlineDepth: i32,
    pub category: Option<IndexIntoCategoryList>,
    pub subcategory: Option<IndexIntoSubcategoryListForCategory>,
    pub func: Option<IndexIntoFuncTable>,
    pub nativeSymbol: Option<IndexIntoNativeSymbolTable>,
    pub innerWindowID: Option<InnerWindowID>,
    pub implementation: Option<IndexIntoStringTable>,
    pub line: Option<u32>,
    pub column: Option<u32>,
}

impl FrameTable {
    pub fn iter(&self) -> (it: TableIterator<'_, FrameTable, FrameTableEntry>)
        ensures
            it.source() == self,
            it.position() == 0,
    {
        TableIterator::from(self)
    }

    /// Checks every column against the declared length.
    pub fn validate(&self) -> (r: Result<(), ColumnMismatch>)
        ensures
            r is Ok <==> self.wf(),
            r is Err ==> r->Err_0.table == TableKind::Frame && r->Err_0.expected == self.length,
            r is Err ==> {
                ||| r->Err_0.reports("address", self.address@.len())
                ||| r->Err_0.reports("inlineDepth", self.inlineDepth@.len())
                ||| r->Err_0.reports("category", self.category@.len())
                ||| r->Err_0.reports("subcategory", self.subcategory@.len())
                ||| r->Err_0.reports("func", self.func@.len())
                ||| r->Err_0.reports("nativeSymbol", self.nativeSymbol@.len())
                ||| r->Err_0.reports("innerWindowID", self.innerWindowID@.len())
                ||| r->Err_0.reports("implementation", self.implementation@.len())
                ||| r->Err_0.reports("line", self.line@.len())
                ||| r->Err_0.reports("column", self.column@.len())
            },
    {
        let n = self.length as u64;
        let t = TableKind::Frame;
        check_column(t, "address", n, self.address.len())?;
        check_column(t, "inlineDepth", n, self.inlineDepth.len())?;
        check_column(t, "category", n, self.category.len())?;
        check_column(t, "subcategory", n, self.subcategory.len())?;
        check_column(t, "func", n, self.func.len())?;
        check_column(t, "nativeSymbol", n, self.nativeSymbol.len())?;
        check_column(t, "innerWindowID", n, self.innerWindowID.len())?;
        check_column(t, "implementation", n, self.implementation.len())?;
        check_column(t, "line", n, self.line.len())?;
        check_column(t, "column", n, self.column.len())?;
        Ok(())
    }
}

impl TableLookup<FrameTableEntry> for FrameTable {
    open spec fn wf(&self) -> bool {
        &&& self.address@.len() == self.length
        &&& self.inlineDepth@.len() == self.length
        &&& self.category@.len() == self.length
        &&& self.subcategory@.len() == self.length
        &&& self.func@.len() == self.length
        &&& self.nativeSymbol@.len() == self.length
        &&& self.innerWindowID@.len() == self.length
        &&& self.implementation@.len() == self.length
        &&& self.line@.len() == self.length
        &&& self.column@.len() == self.length
    }

    open spec fn len_spec(&self) -> nat {
        self.length as nat
    }

    open spec fn row_spec(&self, ix: int) -> FrameTableEntry {
        FrameTableEntry {
            address: self.address@[ix],
            inlineDepth: self.inlineDepth@[ix],
            category: self.category@[ix],
            subcategory: self.subcategory@[ix],
            func: self.func@[ix],
            nativeSymbol: self.nativeSymbol@[ix],
            innerWindowID: self.innerWindowID@[ix],
            implementation: self.implementation@[ix],
            line: self.line@[ix],
            column: self.column@[ix],
        }
    }

    fn length(&self) -> (r: usize) {
        self.address.len()
    }

    fn lookup(&self, ix: usize) -> (e: FrameTableEntry) {
        FrameTableEntry {
            address: self.address[ix],
            inlineDepth: self.inlineDepth[ix],
            category: self.category[ix],
            subcategory: self.subcategory[ix],
            func: self.func[ix],
            nativeSymbol: self.nativeSymbol[ix],
            innerWindowID: self.innerWindowID[ix],
            implementation: self.implementation[ix],
            line: self.line[ix],
            column: self.column[ix],
        }
    }
}

// ---------------------------------------------------------------------------
// Native symbol table
#[derive(Debug, PartialEq)]
pub struct NativeSymbolTable {
    pub libIndex: Array<IndexIntoLibs>,
    pub address: Array<Address>,
    pub name: Array<IndexIntoStringTable>,
    pub functionSize: ArrayQ<u8>,
    pub length: u32,
}

#[derive(Debug, PartialEq, Clone, Copy)]
pub struct NativeSymbolTableEntry {
    pub libIndex: IndexIntoLibs,
    pub address: Address,
    pub name: IndexIntoStringTable,
    pub functionSize: Option<u8>,
}

impl NativeSymbolTable {
    pub fn iter(&self) -> (it: TableIterator<'_, NativeSymbolTable, NativeSymbolTableEntry>)
        ensures
            it.source() == self,
            it.position() == 0,
    {
        TableIterator::from(self)
    }

    /// Checks every column against the declared length.
    pub fn validate(&self) -> (r: Result<(), ColumnMismatch>)
        ensures
            r is Ok <==> self.wf(),
            r is Err ==> r->Err_0.table == TableKind::NativeSymbols && r->Err_0.expected == self.length,
            r is Err ==> {
                ||| r->Err_0.reports("libIndex", self.libIndex@.len())
                ||| r->Err_0.reports("address", self.address@.len())
                ||| r->Err_0.reports("name", self.name@.len())
                ||| r->Err_0.reports("functionSize", self.functionSize@.len())
            },
    {
        let n = self.length as u64;
        let t = TableKind::NativeSymbols;
        check_column(t, "libIndex", n, self.libIndex.len())?;
        check_column(t, "address", n, self.address.len())?;
        check_column(t, "name", n, self.name.len())?;
        check_column(t, "functionSize", n, self.functionSize.len())?;
        Ok(())
    }
}

impl TableLookup<NativeSymbolTableEntry> for NativeSymbolTable {
    open spec fn wf(&self) -> bool {
        &&& self.libIndex@.len() == self.length
        &&& self.address@.len() == self.length
        &&& self.name@.len() == self.length
        &&& self.functionSize@.len() == self.length
    }

    open spec fn len_spec(&self) -> nat {
        self.length as nat
    }

    open spec fn row_spec(&self, ix: int) -> NativeSymbolTableEntry {
        NativeSymbolTableEntry {
            libIndex: self.libIndex@[ix],
            address: self.address@[ix],
            name: self.name@[ix],
            functionSize: self.functionSize@[ix],
        }
    }

    fn length(&self) -> (r: usize) {
        self.libIndex.len()
    }

    fn lookup(&self, ix: usize) -> (e: NativeSymbolTableEntry) {
        NativeSymbolTableEntry {
            libIndex: self.libIndex[ix],
            address: self.address[ix],
            name: self.name[ix],
            functionSize: self.functionSize[ix],
        }
    }
}

// ---------------------------------------------------------------------------
// Samples table
#[derive(Debug, PartialEq, Clone, Copy, Eq, Structural)]
pub enum WeightType {
    Samples,
    TracingMs,
    Bytes,
}

#[derive(Debug, PartialEq)]
pub struct SamplesTable {
    pub responsiveness: Option<ArrayQ<Milliseconds>>,
    pub eventDelay: Option<ArrayQ<Milliseconds>>,
    pub stack: ArrayQ<IndexIntoStackTable>,
    pub time: Array<Milliseconds>,
    pub weight: Option<Array<Weight>>,
    pub weightType: WeightType,
    pub threadCPUDelta: Option<ArrayQ<i32>>,
    pub threadId: Option<Array<Tid>>,
    pub length: u32,
}

#[derive(Debug, PartialEq)]
pub struct SampleTableEntry {
    pub responsiveness: Option<Milliseconds>,
    pub eventDelay: Option<Milliseconds>,
    pub stack: Option<IndexIntoStackTable>,
    pub time: Milliseconds,
    pub weight: Option<Weight>,
    pub weightType: WeightType,
    pub threadCPUDelta: Option<i32>,
    pub threadId: Option<Tid>,
}

/// An absent column reads as a null cell on every row.
pub open spec fn cell_or_null<T>(col: Option<ArrayQ<T>>, ix: int) -> Option<T> {
    match col {
        Some(a) => a@[ix],
        None => None,
    }
}

/// An optional column is either absent or of the declared length.
pub open spec fn column_fits<T>(col: Option<Array<T>>, n: nat) -> bool {
    match col {
        Some(a) => a@.len() == n,
        None => true,
    }
}

fn check_optional_column<T>(
    table: TableKind,
    column: &'static str,
    expected: u64,
    col: &Option<Array<T>>,
) -> (r: Result<(), ColumnMismatch>)
    ensures
        r is Ok <==> column_fits(*col, expected as nat),
        r is Err ==> r->Err_0.table == table && r->Err_0.expected == expected,
        r is Err ==> {
            &&& *col is Some
            &&& r->Err_0.column == column
            &&& r->Err_0.found as int == (*col)->0@.len()
            &&& r->Err_0.found as int != expected as int
        },
{
    match col {
        Some(a) => check_column(table, column, expected, a.len()),
        None => Ok(()),
    }
}

impl SamplesTable {
    pub fn iter(&self) -> (it: TableIterator<'_, SamplesTable, SampleTableEntry>)
        ensures
            it.source() == self,
            it.position() == 0,
    {
        TableIterator::from(self)
    }

    /// Checks every column that is present against the declared length.
    pub fn validate(&self) -> (r: Result<(), ColumnMismatch>)
        ensures
            r is Ok <==> self.wf(),
            r is Err ==> r->Err_0.table == TableKind::Samples && r->Err_0.expected == self.length,
            r is Err ==> {
                ||| (self.responsiveness is Some && r->Err_0.reports("responsiveness", self.responsiveness->0@.len()))
                ||| (self.eventDelay is Some && r->Err_0.reports("eventDelay", self.eventDelay->0@.len()))
                ||| r->Err_0.reports("stack", self.stack@.len())
                ||| r->Err_0.reports("time", self.time@.len())
                ||| (self.weight is Some && r->Err_0.reports("weight", self.weight->0@.len()))
                ||| (self.threadCPUDelta is Some && r->Err_0.reports("threadCPUDelta", self.threadCPUDelta->0@.len()))
                ||| (self.threadId is Some && r->Err_0.reports("threadId", self.threadId->0@.len()))
            },
    {
        let n = self.length as u64;
        let t = TableKind::Samples;
        check_optional_column(t, "responsiveness", n, &self.responsiveness)?;
        check_optional_column(t, "eventDelay", n, &self.eventDelay)?;
        check_column(t, "stack", n, self.stack.len())?;
        check_column(t, "time", n, self.time.len())?;
        check_optional_column(t, "weight", n, &self.weight)?;
        check_optional_column(t, "threadCPUDelta", n, &self.threadCPUDelta)?;
        check_optional_column(t, "threadId", n, &self.threadId)?;
        Ok(())
    }
}

impl TableLookup<SampleTableEntry> for SamplesTable {
    open spec fn wf(&self) -> bool {
        let n = self.length as nat;
        &&& column_fits(self.responsiveness, n)
        &&& column_fits(self.eventDelay, n)
        &&& self.stack@.len() == n
        &&& self.time@.len() == n
        &&& column_fits(self.weight, n)
        &&& column_fits(self.threadCPUDelta, n)
        &&& column_fits(self.threadId, n)
    }

    open spec fn len_spec(&self) -> nat {
        self.length as nat
    }

    open spec fn row_spec(&self, ix: int) -> SampleTableEntry {
        SampleTableEntry {
            responsiveness: cell_or_null(self.responsiveness, ix),
            eventDelay: cell_or_null(self.eventDelay, ix),
            stack: self.stack@[ix],
            time: self.time@[ix],
            weight: match self.weight {
                Some(a) => Some(a@[ix]),
                None => None,
            },
            weightType: self.weightType,
            threadCPUDelta: cell_or_null(self.threadCPUDelta, ix),
            threadId: match self.threadId {
                Some(a) => Some(a@[ix]),
                None => None,
            },
        }
    }

    fn length(&self) -> (r: usize) {
        self.time.len()
    }

    fn lookup(&self, ix: usize) -> (e: SampleTableEntry) {
        SampleTableEntry {
            responsiveness: match &self.responsiveness {
                Some(a) => a[ix],
                None => None,
            },
            eventDelay: match &self.eventDelay {
                Some(a) => a[ix],
                None => None,
            },
            stack: self.stack[ix],
            time: self.time[ix],
            weight: match &self.weight {
                Some(a) => Some(a[ix]),
                None => None,
            },
            weightType: self.weightType,
            threadCPUDelta: match &self.threadCPUDelta {
                Some(a) => a[ix],
                None => None,
            },
            threadId: match &self.threadId {
                Some(a) => Some(a[ix].duplicate()),
                None => None,
            },
        }
    }
}

// ---------------------------------------------------------------------------
// Function and resource tables
#[derive(Debug, PartialEq)]
pub struct FuncTable {
    pub name: Array<IndexIntoStringTable>,
    pub isJS: Array<bool>,
    pub relevantForJS: Array<bool>,
    pub resource: Array<IndexIntoResourceTable>,
    pub fileName: ArrayQ<IndexIntoStringTable>,
    pub lineNumber: ArrayQ<u32>,
    pub columnNumber: ArrayQ<u32>,
    pub length: u32,
}

impl FuncTable {
    pub open spec fn wf(&self) -> bool {
        &&& self.name@.len() == self.length
        &&& self.isJS@.len() == self.length
        &&& self.relevantForJS@.len() == self.length
        &&& self.resource@.len() == self.length
        &&& self.fileName@.len() == self.length
        &&& self.lineNumber@.len() == self.length
        &&& self.columnNumber@.len() == self.length
    }

    /// Checks every column against the declared length.
    pub fn validate(&self) -> (r: Result<(), ColumnMismatch>)
        ensures
            r is Ok <==> self.wf(),
            r is Err ==> r->Err_0.table == TableKind::Func && r->Err_0.expected == self.length,
            r is Err ==> {
                ||| r->Err_0.reports("name", self.name@.len())
                ||| r->Err_0.reports("isJS", self.isJS@.len())
                ||| r->Err_0.reports("relevantForJS", self.relevantForJS@.len())
                ||| r->Err_0.reports("resource", self.resource@.len())
                ||| r->Err_0.reports("fileName", self.fileName@.len())
                ||| r->Err_0.reports("lineNumber", self.lineNumber@.len())
                ||| r->Err_0.reports("columnNumber", self.columnNumber@.len())
            },
    {
        let n = self.length as u64;
        let t = TableKind::Func;
        check_column(t, "name", n, self.name.len())?;
        check_column(t, "isJS", n, self.isJS.len())?;
        check_column(t, "relevantForJS", n, self.relevantForJS.len())?;
        check_column(t, "resource", n, self.resource.len())?;
        check_column(t, "fileName", n, self.fileName.len())?;
        check_column(t, "lineNumber", n, self.lineNumber.len())?;
        check_column(t, "columnNumber", n, self.columnNumber.len())?;
        Ok(())
    }
}

#[derive(Debug, PartialEq)]
pub struct ResourceTable {
    pub length: u32,
    pub lib: ArrayQ<IndexIntoLibs>,
    pub name: Array<IndexIntoStringTable>,
    pub host: ArrayQ<IndexIntoStringTable>,
    pub ty: Array<resourceTypeEnum>,
}

impl ResourceTable {
    pub open spec fn wf(&self) -> bool {
        &&& self.lib@.len() == self.length
        &&& self.name@.len() == self.length
        &&& self.host@.len() == self.length
        &&& self.ty@.len() == self.length
    }

    /// Checks every column against the declared length.
    pub fn validate(&self) -> (r: Result<(), ColumnMismatch>)
        ensures
            r is Ok <==> self.wf(),
            r is Err ==> r->Err_0.table == TableKind::Resource && r->Err_0.expected == self.length,
            r is Err ==> {
                ||| r->Err_0.reports("lib", self.lib@.len())
                ||| r->Err_0.reports("name", self.name@.len())
                ||| r->Err_0.reports("host", self.host@.len())
                ||| r->Err_0.reports("type", self.ty@.len())
            },
    {
        let n = self.length as u64;
        let t = TableKind::Resource;
        check_column(t, "lib", n, self.lib.len())?;
        check_column(t, "name", n, self.name.len())?;
        check_column(t, "host", n, self.host.len())?;
        check_column(t, "type", n, self.ty.len())?;
        Ok(())
    }
}

// ---------------------------------------------------------------------------
// Tables that the model carries but does not resolve
#[derive(Debug, PartialEq)]
pub struct StartEndRange {
    pub start: Milliseconds,
    pub end: Milliseconds,
}

#[derive(Debug, PartialEq)]
pub struct SamplesLikeTableShape {
    pub stack: ArrayQ<IndexIntoFrameTable>,
    pub time: Array<Milliseconds>,
    pub weight: Option<Weight>,
    pub weightType: WeightType,
    pub length: u64,
}

#[derive(Debug, PartialEq)]
pub struct JsAllocationsTable {
    pub time: Array<Milliseconds>,
    pub className: Array<String>,
    pub coarseType: Array<String>,
    pub weight: Array<u8>,
    pub weightType: WeightType,
    pub inNursery: Array<bool>,
    pub stack: ArrayQ<IndexIntoStackTable>,
    pub length: u32,
}

#[derive(Debug, PartialEq)]
pub struct UnbalancedNativeAllocationsTable {
    pub time: Array<Milliseconds>,
    pub weight: Array<u8>,
    pub weightType: WeightType,
    pub stack: ArrayQ<IndexIntoStackTable>,
    pub length: u32,
}

#[derive(Debug, PartialEq)]
pub struct BalancedNativeAllocationsTable {
    pub time: Array<Milliseconds>,
    pub weight: Array<u8>,
    pub weightType: WeightType,
    pub stack: ArrayQ<IndexIntoStackTable>,
    pub length: u32,
    pub memoryAddress: Array<u32>,
    pub threadId: Array<u32>,
}

#[derive(Debug, PartialEq)]
pub enum NativeAllocationsTable {
    UnbalancedNativeAllocationsTable(UnbalancedNativeAllocationsTable),
    BalancedNativeAllocationsTable(BalancedNativeAllocationsTable),
}

#[derive(Debug, PartialEq, Clone, Copy, Eq, Structural)]
pub enum ProcessType {
    Default,
    Plugin,
    Tab,
    IpdlUnitTest,
    GeckoMediaPlugin,
    GPU,
    Pdfium,
    VR,
    Invalid,
    Other,
}

// ---------------------------------------------------------------------------
// Threads, libraries and the profile
#[derive(Debug, PartialEq)]
pub struct Thread {
    pub processType: ProcessType,
    pub processStartupTime: Milliseconds,
    pub processShutdownTime: Option<Milliseconds>,
    pub registerTime: Option<Milliseconds>,
    pub unregisterTime: Option<Milliseconds>,
    pub name: String,
    pub isMainThread: bool,
    pub eTLDone: Option<String>,
    pub processName: Option<String>,
    pub isJsTracer: Option<bool>,
    pub pid: Pid,
    pub tid: Tid,
    pub samples: SamplesTable,
    pub stackTable: StackTable,
    pub frameTable: FrameTable,
    /// Written `stringTable` or, in some documents, `stringArray`.
    pub stringTable: UniqueStringArray,
    pub funcTable: FuncTable,
    pub nativeSymbols: NativeSymbolTable,
    pub isPrivateBrowsing: Option<bool>,
    pub userContextId: Option<u32>,
}

impl Thread {
    /// Every table of the thread has columns of its declared length.
    pub open spec fn wf(&self) -> bool {
        &&& self.samples.wf()
        &&& self.stackTable.wf()
        &&& self.frameTable.wf()
        &&& self.funcTable.wf()
        &&& self.nativeSymbols.wf()
    }

    /// Checks the tables in turn; reports the first column that is off.
    pub fn validate(&self) -> (r: Result<(), ColumnMismatch>)
        ensures
            r is Ok <==> self.wf(),
            r is Err ==> r->Err_0.found as int != r->Err_0.expected as int,
            r is Err ==> {
                ||| r->Err_0.table == TableKind::Samples && !self.samples.wf()
                ||| r->Err_0.table == TableKind::Stack && !self.stackTable.wf()
                ||| r->Err_0.table == TableKind::Frame && !self.frameTable.wf()
                ||| r->Err_0.table == TableKind::Func && !self.funcTable.wf()
                ||| r->Err_0.table == TableKind::NativeSymbols && !self.nativeSymbols.wf()
            },
    {
        self.samples.validate()?;
        self.stackTable.validate()?;
        self.frameTable.validate()?;
        self.funcTable.validate()?;
        self.nativeSymbols.validate()?;
        Ok(())
    }
}

#[derive(Debug, PartialEq, Clone)]
pub struct Lib {
    pub arch: Option<String>,
    pub name: String,
    pub path: String,
    pub debugName: String,
    pub debugPath: String,
    pub breakpadId: String,
    pub codeId: Option<String>,
}

/// A JSON value that the model carries through without reading it.
#[verifier::external_type_specification]
#[verifier::external_body]
pub struct ExJsonValue(serde_json::Value);

#[derive(Debug, PartialEq)]
pub struct Profile {
    pub libs: Array<Lib>,
    pub pages: serde_json::Value,
    pub threads: Array<Thread>,
}

/// A document whose table sizes disagree with their declared lengths.
#[derive(Debug, Clone, Copy, PartialEq, Eq)]
pub struct DecodeError {
    /// Position of the thread in the profile's thread list.
    pub thread: usize,
    pub mismatch: ColumnMismatch,
}

impl Profile {
    pub open spec fn wf(&self) -> bool {
        forall|t: int| 0 <= t < self.threads@.len() ==> #[trigger] self.threads@[t].wf()
    }

    /// Checks every thread's tables; a document that fails is rejected as a
    /// whole, naming the first thread and column that are off.
    pub fn validate(&self) -> (r: Result<(), DecodeError>)
        ensures
            r is Ok <==> self.wf(),
            r is Err ==> {
                &&& r->Err_0.thread < self.threads@.len()
                &&& !self.threads@[r->Err_0.thread as int].wf()
                &&& r->Err_0.mismatch.found as int != r->Err_0.mismatch.expected as int
                &&& forall|t: int| 0 <= t < r->Err_0.thread ==> #[trigger] self.threads@[t].wf()
            },
    {
        let mut i: usize = 0;
        while i < self.threads.len()
            invariant
                i <= self.threads@.len(),
                forall|t: int| 0 <= t < i ==> #[trigger] self.threads@[t].wf(),
            decreases self.threads@.len() - i,
        {
            match self.threads[i].validate() {
                Ok(()) => {},
                Err(mismatch) => {
                    return Err(DecodeError { thread: i, mismatch });
                },
            }
            i = i + 1;
        }
        Ok(())
    }
}

} // verus!
