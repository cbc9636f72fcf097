//! Diagnostics of patterns and `match`.

use crate::diagnostic::DiagnosticSeverity;
use crate::text::str_eq;
use vstd::prelude::*;

verus! {

/// A registered diagnostic: its code, title, message and severity.
#[derive(Debug, Clone, Copy)]
pub struct PatternDiagnosticMessage {
    pub code: &'static str,
    pub title: &'static str,
    pub message: &'static str,
    pub severity: DiagnosticSeverity,
}

/// The registry, in order.
pub open spec fn spec_pattern_messages() -> Seq<PatternDiagnosticMessage> {
    seq![
        PatternDiagnosticMessage {
            code: "pattern.active.return_contract_invalid",
            title: "Active Pattern の戻り値契約違反",
            message: "Active Pattern の戻り値は Option<T> または完全パターンの T に限定されます。",
            severity: DiagnosticSeverity::Error,
        },
        PatternDiagnosticMessage {
            code: "pattern.active.effect_violation",
            title: "純粋 Active Pattern での副作用",
            message: "`@pure` Active Pattern で副作用が検出されました。副作用を除去するか純粋でない関数へ移動してください。",
            severity: DiagnosticSeverity::Error,
        },
        PatternDiagnosticMessage {
            code: "pattern.active.name_conflict",
            title: "Active Pattern 名が衝突しています",
            message: "同一モジュール内で Active Pattern 名が別のシンボルと衝突しています。",
            severity: DiagnosticSeverity::Error,
        },
        PatternDiagnosticMessage {
            code: "pattern.exhaustiveness.missing",
            title: "match の網羅性が不足しています",
            message: "この match はすべての入力を網羅していません。未処理のケースを追加してください。",
            severity: DiagnosticSeverity::Warning,
        },
        PatternDiagnosticMessage {
            code: "pattern.unreachable_arm",
            title: "到達不能なパターンがあります",
            message: "前段のパターンによりこのアームは到達不能です。順序を見直すか冗長なアームを削除してください。",
            severity: DiagnosticSeverity::Warning,
        },
    ]
}

/// The first entry of `entries` whose code is `code`.
pub open spec fn first_with_code(entries: Seq<PatternDiagnosticMessage>, code: Seq<char>) -> Option<PatternDiagnosticMessage>
    decreases entries.len(),
{
    if entries.len() == 0 {
        None
    } else if entries[0].code@ == code {
        Some(entries[0])
    } else {
        first_with_code(entries.drop_first(), code)
    }
}

/// The registered messages.
pub fn pattern_messages() -> (r: Vec<PatternDiagnosticMessage>)
    ensures
        r@ == spec_pattern_messages(),
{
    let r = vec![
        PatternDiagnosticMessage {
            code: "pattern.active.return_contract_invalid",
            title: "Active Pattern の戻り値契約違反",
            message: "Active Pattern の戻り値は Option<T> または完全パターンの T に限定されます。",
            severity: DiagnosticSeverity::Error,
        },
        PatternDiagnosticMessage {
            code: "pattern.active.effect_violation",
            title: "純粋 Active Pattern での副作用",
            message: "`@pure` Active Pattern で副作用が検出されました。副作用を除去するか純粋でない関数へ移動してください。",
            severity: DiagnosticSeverity::Error,
        },
        PatternDiagnosticMessage {
            code: "pattern.active.name_conflict",
            title: "Active Pattern 名が衝突しています",
            message: "同一モジュール内で Active Pattern 名が別のシンボルと衝突しています。",
            severity: DiagnosticSeverity::Error,
        },
        PatternDiagnosticMessage {
            code: "pattern.exhaustiveness.missing",
            title: "match の網羅性が不足しています",
            message: "この match はすべての入力を網羅していません。未処理のケースを追加してください。",
            severity: DiagnosticSeverity::Warning,
        },
        PatternDiagnosticMessage {
            code: "pattern.unreachable_arm",
            title: "到達不能なパターンがあります",
            message: "前段のパターンによりこのアームは到達不能です。順序を見直すか冗長なアームを削除してください。",
            severity: DiagnosticSeverity::Warning,
        },
    ];
    assert(r@ =~= spec_pattern_messages());
    r
}

/// The registered message with the given code, if any.
pub fn find_pattern_message(code: &str) -> (r: Option<PatternDiagnosticMessage>)
    ensures
        r == first_with_code(spec_pattern_messages(), code@),
{
    let entries = pattern_messages();
    let mut i: usize = 0;
    assert(entries@.skip(0) =~= entries@);
    while i < entries.len()
        invariant
            i <= entries@.len(),
            entries@ == spec_pattern_messages(),
            first_with_code(entries@.skip(i as int), code@) == first_with_code(spec_pattern_messages(), code@),
        decreases entries.len() - i,
    {
        let entry = entries[i];
        assert(entries@.skip(i as int)[0] == entry);
        assert(entries@.skip(i as int).drop_first() =~= entries@.skip(i + 1));
        if str_eq(entry.code, code) {
            return Some(entry);
        }
        i += 1;
    }
    assert(entries@.skip(i as int) =~= Seq::<PatternDiagnosticMessage>::empty());
    None
}

} // verus!
