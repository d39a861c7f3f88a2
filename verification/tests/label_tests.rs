//! Tests of the label table and branch resolution: collection with
//! program-counter accounting, duplicates, lookups, offset resolution, and
//! the two-pass assembly driver.

use kas_riscv::assembler::Assembler;
use kas_riscv::ast::Asm;
use kas_riscv::ast::AsmKind;
use kas_riscv::error::AsmError;
use kas_riscv::label_table::LabelEntry;
use kas_riscv::label_table::LabelTable;
use kas_riscv::label_table::make_label_table;
use kas_riscv::label_table::resolve_labels;
use kas_riscv::lexer::Lexer;
use kas_riscv::parser::Parser;

fn parser_for(src: &str) -> Parser {
    Parser::new(Lexer::new(src)).unwrap()
}

#[test]
fn test_label_table_offsets() {
    let mut p = parser_for("A1:\nadd 1, 2, 3\nB1:\nadd 4, 5, 6\n");
    let (lines, table) = make_label_table(&mut p).unwrap();
    assert_eq!(lines.len(), 5);
    assert_eq!(lines[0].kind, AsmKind::LABEL { l: "A1".to_string() });
    assert_eq!(lines[4].kind, AsmKind::EOASM);
    assert_eq!(table.len(), 2);
    assert_eq!(table.lookup("A1"), Some(0));
    assert_eq!(table.lookup("B1"), Some(8));
    assert_eq!(table.lookup("C1"), None);
}

#[test]
fn test_label_table_counts_label_lines() {
    let mut p = parser_for("add 1, 2, 3\nA1:\nB1:\nadd 4, 5, 6\n");
    let (_, table) = make_label_table(&mut p).unwrap();
    assert_eq!(table.lookup("A1"), Some(4));
    assert_eq!(table.lookup("B1"), Some(8));
}

#[test]
fn test_label_table_duplicate_is_error() {
    let mut p = parser_for("A1:\nadd 1, 2, 3\nA1:\n");
    assert_eq!(
        make_label_table(&mut p),
        Err(AsmError::DuplicateLabel { label: "A1".to_string() })
    );
}

#[test]
fn test_label_table_relays_parse_error() {
    let mut p = parser_for("add 1, 2\n");
    assert!(make_label_table(&mut p).is_err());
}

#[test]
fn test_resolve_backward_branch() {
    let mut p = parser_for("A1:\nadd 1, 2, 3\nbeq 1, 2, A1\n");
    let (lines, table) = make_label_table(&mut p).unwrap();
    let resolved = resolve_labels(&lines, &table).unwrap();
    assert_eq!(
        resolved[2].kind,
        AsmKind::BEQ { imm: Some(-8), rs1: 2, rd: 1, label: None }
    );
}

#[test]
fn test_resolve_forward_branch() {
    let mut p = parser_for("beq 1, 2, DONE\nadd 1, 2, 3\nDONE:\n");
    let (lines, table) = make_label_table(&mut p).unwrap();
    let resolved = resolve_labels(&lines, &table).unwrap();
    assert_eq!(
        resolved[0].kind,
        AsmKind::BEQ { imm: Some(8), rs1: 2, rd: 1, label: None }
    );
}

#[test]
fn test_resolve_missing_label_is_error() {
    let mut p = parser_for("beq 1, 2, NOPE\n");
    let (lines, table) = make_label_table(&mut p).unwrap();
    assert_eq!(
        resolve_labels(&lines, &table),
        Err(AsmError::UnresolvedLabel { label: "NOPE".to_string() })
    );
}

#[test]
fn test_resolve_out_of_range_offset_is_error() {
    let table = LabelTable {
        entries: vec![LabelEntry { name: "far".to_string(), pc: 3000 }],
    };
    let lines = vec![Asm {
        kind: AsmKind::BEQ { imm: None, rs1: 2, rd: 1, label: Some("far".to_string()) },
    }];
    assert_eq!(
        resolve_labels(&lines, &table),
        Err(AsmError::BranchTargetOutOfRange { offset: 3000 })
    );
}

#[test]
fn test_resolve_keeps_other_lines() {
    let mut p = parser_for("lw 6, 16(10)\nA1:\nbne 1, 2, A1\n");
    let (lines, table) = make_label_table(&mut p).unwrap();
    let resolved = resolve_labels(&lines, &table).unwrap();
    assert_eq!(resolved[0].kind, AsmKind::LW { imm: 16, rs1: 10, rd: 6 });
    assert_eq!(resolved[1].kind, AsmKind::LABEL { l: "A1".to_string() });
    assert_eq!(
        resolved[2].kind,
        AsmKind::BNE { imm: Some(-4), rs1: 2, rd: 1, label: None }
    );
}

#[test]
fn test_make_symbol_table_via_assembler() {
    let p = parser_for("A1:\nadd 1, 2, 3\n");
    let mut a = Assembler::new(p);
    let (lines, table) = a.make_symbol_table().unwrap();
    assert_eq!(lines.len(), 3);
    assert_eq!(table.lookup("A1"), Some(0));
}

#[test]
fn test_assemble_all_resolved_backward_branch() {
    let p = parser_for("A1:\nbeq 1, 2, A1\n");
    let mut a = Assembler::new(p);
    let out = a.assemble_all_resolved().unwrap();
    assert_eq!(out, "11111110001000001000111001100011\n");
}

#[test]
fn test_assemble_all_resolved_skips_label_lines() {
    let p = parser_for("A1:\nadd 1, 2, 3\n");
    let mut a = Assembler::new(p);
    let out = a.assemble_all_resolved().unwrap();
    assert_eq!(out, "00000000001100010000000010110011\n");
}
