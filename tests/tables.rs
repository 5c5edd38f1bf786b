use fx_processed_to_clang::fx_processed_profile::{
    ColumnMismatch, FrameTable, FrameTableEntry, FuncTable, Milliseconds, NativeSymbolTable,
    NativeSymbolTableEntry, ResourceTable, SamplesTable, StackTable, StackTableEntry, TableKind,
    Tid, WeightType,
};
use fx_processed_to_clang::profile_table_iterator::{lookup_through_option, rows, TableLookup};
use fx_processed_to_clang::table_address::TableAddress;

fn ms(v: f64) -> Milliseconds {
    Milliseconds { bits: v.to_bits() }
}

fn stack_table() -> StackTable {
    StackTable {
        frame: vec![0, 1, 2],
        category: vec![0, 0, 1],
        prefix: vec![None, Some(0), Some(1)],
        length: 3,
    }
}

fn frame_table() -> FrameTable {
    FrameTable {
        address: vec![TableAddress::Base, TableAddress::Address(796420)],
        inlineDepth: vec![0, 1],
        category: vec![Some(0), None],
        subcategory: vec![Some(0), None],
        func: vec![Some(0), Some(1)],
        nativeSymbol: vec![None, Some(0)],
        innerWindowID: vec![None, None],
        implementation: vec![None, Some(3)],
        line: vec![Some(10), None],
        column: vec![None, Some(4)],
        length: 2,
    }
}

fn symbol_table() -> NativeSymbolTable {
    NativeSymbolTable {
        libIndex: vec![0, 1],
        address: vec![0x1A0007, 674226],
        name: vec![8, 9],
        functionSize: vec![None, Some(20)],
        length: 2,
    }
}

fn samples_table() -> SamplesTable {
    SamplesTable {
        responsiveness: None,
        eventDelay: Some(vec![Some(ms(0.5)), None, Some(ms(2.0))]),
        stack: vec![Some(0), None, Some(2)],
        time: vec![ms(0.0), ms(1.0), ms(2.0)],
        weight: Some(vec![1, 2, 3]),
        weightType: WeightType::Samples,
        threadCPUDelta: None,
        threadId: Some(vec![
            Tid::Integer(7),
            Tid::String(String::from("7")),
            Tid::Integer(8),
        ]),
        length: 3,
    }
}

#[test]
fn stack_rows_match_lookup() {
    let t = stack_table();
    let all = rows(&t);
    assert_eq!(all.len(), t.length());
    assert_eq!(all.len(), 3);
    for (i, row) in all.iter().enumerate() {
        assert_eq!(*row, t.lookup(i));
    }
    assert_eq!(
        t.lookup(2),
        StackTableEntry { frame: 2, category: 1, prefix: Some(1) }
    );
}

#[test]
fn frame_rows_match_lookup() {
    let t = frame_table();
    let all = rows(&t);
    assert_eq!(all.len(), 2);
    for (i, row) in all.iter().enumerate() {
        assert_eq!(*row, t.lookup(i));
    }
    assert_eq!(
        t.lookup(1),
        FrameTableEntry {
            address: TableAddress::Address(796420),
            inlineDepth: 1,
            category: None,
            subcategory: None,
            func: Some(1),
            nativeSymbol: Some(0),
            innerWindowID: None,
            implementation: Some(3),
            line: None,
            column: Some(4),
        }
    );
}

#[test]
fn symbol_rows_match_lookup() {
    let t = symbol_table();
    let all = rows(&t);
    assert_eq!(all.len(), 2);
    for (i, row) in all.iter().enumerate() {
        assert_eq!(*row, t.lookup(i));
    }
    assert_eq!(
        t.lookup(0),
        NativeSymbolTableEntry { libIndex: 0, address: 0x1A0007, name: 8, functionSize: None }
    );
}

#[test]
fn sample_rows_read_optional_columns() {
    let t = samples_table();
    let all = rows(&t);
    assert_eq!(all.len(), 3);
    for (i, row) in all.iter().enumerate() {
        assert_eq!(*row, t.lookup(i));
    }
    let second = t.lookup(1);
    assert_eq!(second.responsiveness, None);
    assert_eq!(second.eventDelay, None);
    assert_eq!(second.stack, None);
    assert_eq!(second.time, ms(1.0));
    assert_eq!(second.weight, Some(2));
    assert_eq!(second.threadCPUDelta, None);
    assert_eq!(second.threadId, Some(Tid::String(String::from("7"))));
    assert_eq!(t.lookup(0).eventDelay, Some(ms(0.5)));
}

#[test]
fn iterator_ends_after_length_items() {
    let t = stack_table();
    let mut it = t.iter();
    let mut n = 0;
    while let Some(row) = it.next() {
        assert_eq!(row, t.lookup(n));
        n += 1;
    }
    assert_eq!(n, 3);
    assert!(it.next().is_none());
    // A fresh pass starts again at the first row.
    assert_eq!(t.iter().next(), Some(t.lookup(0)));
}

#[test]
fn empty_table_has_no_rows() {
    let t = StackTable { frame: vec![], category: vec![], prefix: vec![], length: 0 };
    assert!(t.validate().is_ok());
    assert_eq!(rows(&t).len(), 0);
    assert!(t.iter().next().is_none());
}

#[test]
fn well_formed_tables_validate() {
    assert_eq!(stack_table().validate(), Ok(()));
    assert_eq!(frame_table().validate(), Ok(()));
    assert_eq!(symbol_table().validate(), Ok(()));
    assert_eq!(samples_table().validate(), Ok(()));
}

#[test]
fn short_stack_column_is_rejected() {
    let mut t = stack_table();
    t.category.pop();
    assert_eq!(
        t.validate(),
        Err(ColumnMismatch { table: TableKind::Stack, column: "category", expected: 3, found: 2 })
    );
}

#[test]
fn long_frame_column_is_rejected() {
    let mut t = frame_table();
    t.line.push(None);
    assert_eq!(
        t.validate(),
        Err(ColumnMismatch { table: TableKind::Frame, column: "line", expected: 2, found: 3 })
    );
}

#[test]
fn declared_length_disagreeing_with_columns_is_rejected() {
    let mut t = symbol_table();
    t.length = 5;
    assert_eq!(
        t.validate(),
        Err(ColumnMismatch {
            table: TableKind::NativeSymbols,
            column: "libIndex",
            expected: 5,
            found: 2
        })
    );
}

#[test]
fn present_optional_sample_column_is_checked() {
    let mut t = samples_table();
    t.weight = Some(vec![1]);
    assert_eq!(
        t.validate(),
        Err(ColumnMismatch { table: TableKind::Samples, column: "weight", expected: 3, found: 1 })
    );
    t.weight = None;
    assert_eq!(t.validate(), Ok(()));
}

#[test]
fn func_and_resource_tables_validate() {
    let f = FuncTable {
        name: vec![0, 1],
        isJS: vec![true, false],
        relevantForJS: vec![false, false],
        resource: vec![TableAddress::Base, TableAddress::Error(-3)],
        fileName: vec![None, None],
        lineNumber: vec![None, None],
        columnNumber: vec![None, Some(2)],
        length: 2,
    };
    assert_eq!(f.validate(), Ok(()));
    let r = ResourceTable {
        length: 1,
        lib: vec![Some(0)],
        name: vec![1],
        host: vec![],
        ty: vec![1],
    };
    assert_eq!(
        r.validate(),
        Err(ColumnMismatch { table: TableKind::Resource, column: "host", expected: 1, found: 0 })
    );
}

#[test]
fn option_lookup_borrows_value() {
    let some: Option<String> = Some(String::from("x"));
    assert_eq!(lookup_through_option(&some), Some(&String::from("x")));
    let none: Option<u32> = None;
    assert_eq!(lookup_through_option(&none), None);
}

#[test]
fn thread_ids_keep_their_representation() {
    let text = Tid::String(String::from("12345"));
    let number = Tid::Integer(12345);
    assert_ne!(text, number);
    assert_eq!(text.duplicate(), text);
    assert_eq!(number.duplicate(), number);
    assert!(matches!(text.duplicate(), Tid::String(s) if s == "12345"));
    assert!(matches!(number.duplicate(), Tid::Integer(12345)));
}
