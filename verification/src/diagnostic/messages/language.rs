//! Diagnostics of language features (`rec`, lambdas).

use crate::diagnostic::DiagnosticSeverity;
use crate::text::str_eq;
use vstd::prelude::*;

verus! {

/// A registered diagnostic: its code, title, message and severity.
#[derive(Debug, Clone, Copy)]
pub struct LanguageDiagnosticMessage {
    pub code: &'static str,
    pub title: &'static str,
    pub message: &'static str,
    pub severity: DiagnosticSeverity,
}

/// The registry, in order.
pub open spec fn spec_language_messages() -> Seq<LanguageDiagnosticMessage> {
    seq![
        LanguageDiagnosticMessage {
            code: "parser.rec.invalid_form",
            title: "`rec` の形式が不正です",
            message: "`rec <ident>` の形式のみ受理されます。",
            severity: DiagnosticSeverity::Error,
        },
        LanguageDiagnosticMessage {
            code: "parser.rec.unsupported_position",
            title: "`rec` の位置が不正です",
            message: "`rec` は代入対象として使用できません。",
            severity: DiagnosticSeverity::Error,
        },
        LanguageDiagnosticMessage {
            code: "parser.lambda.param_missing",
            title: "ラムダ引数がありません",
            message: "ラムダ式には 1 つ以上の引数を指定してください。",
            severity: DiagnosticSeverity::Error,
        },
        LanguageDiagnosticMessage {
            code: "typeck.lambda.capture_unsupported",
            title: "キャプチャ付きラムダは未実装です",
            message: "ラムダが外側の束縛を参照しています。引数で明示してください。",
            severity: DiagnosticSeverity::Error,
        },
        LanguageDiagnosticMessage {
            code: "typeck.lambda.capture_mut_unsupported",
            title: "可変キャプチャは未実装です",
            message: "ラムダ内で外側の束縛を更新しています。引数で明示してください。",
            severity: DiagnosticSeverity::Error,
        },
        LanguageDiagnosticMessage {
            code: "typeck.rec.unresolved_ident",
            title: "`rec` 参照が未解決です",
            message: "`rec <ident>` の参照先が見つかりません。",
            severity: DiagnosticSeverity::Error,
        },
    ]
}

/// The first entry of `entries` whose code is `code`.
pub open spec fn first_with_code(entries: Seq<LanguageDiagnosticMessage>, code: Seq<char>) -> Option<LanguageDiagnosticMessage>
    decreases entries.len(),
{
    if entries.len() == 0 {
        None
    } else if entries[0].code@ == code {
        Some(entries[0])
    } else {
        first_with_code(entries.drop_first(), code)
    }
}

/// The registered messages.
pub fn language_messages() -> (r: Vec<LanguageDiagnosticMessage>)
    ensures
        r@ == spec_language_messages(),
{
    let r = vec![
        LanguageDiagnosticMessage {
            code: "parser.rec.invalid_form",
            title: "`rec` の形式が不正です",
            message: "`rec <ident>` の形式のみ受理されます。",
            severity: DiagnosticSeverity::Error,
        },
        LanguageDiagnosticMessage {
            code: "parser.rec.unsupported_position",
            title: "`rec` の位置が不正です",
            message: "`rec` は代入対象として使用できません。",
            severity: DiagnosticSeverity::Error,
        },
        LanguageDiagnosticMessage {
            code: "parser.lambda.param_missing",
            title: "ラムダ引数がありません",
            message: "ラムダ式には 1 つ以上の引数を指定してください。",
            severity: DiagnosticSeverity::Error,
        },
        LanguageDiagnosticMessage {
            code: "typeck.lambda.capture_unsupported",
            title: "キャプチャ付きラムダは未実装です",
            message: "ラムダが外側の束縛を参照しています。引数で明示してください。",
            severity: DiagnosticSeverity::Error,
        },
        LanguageDiagnosticMessage {
            code: "typeck.lambda.capture_mut_unsupported",
            title: "可変キャプチャは未実装です",
            message: "ラムダ内で外側の束縛を更新しています。引数で明示してください。",
            severity: DiagnosticSeverity::Error,
        },
        LanguageDiagnosticMessage {
            code: "typeck.rec.unresolved_ident",
            title: "`rec` 参照が未解決です",
            message: "`rec <ident>` の参照先が見つかりません。",
            severity: DiagnosticSeverity::Error,
        },
    ];
    assert(r@ =~= spec_language_messages());
    r
}

/// The registered message with the given code, if any.
pub fn find_language_message(code: &str) -> (r: Option<LanguageDiagnosticMessage>)
    ensures
        r == first_with_code(spec_language_messages(), code@),
{
    let entries = language_messages();
    let mut i: usize = 0;
    assert(entries@.skip(0) =~= entries@);
    while i < entries.len()
        invariant
            i <= entries@.len(),
            entries@ == spec_language_messages(),
            first_with_code(entries@.skip(i as int), code@) == first_with_code(spec_language_messages(), code@),
        decreases entries.len() - i,
    {
        let entry = entries[i];
        assert(entries@.skip(i as int)[0] == entry);
        assert(entries@.skip(i as int).drop_first() =~= entries@.skip(i + 1));
        if str_eq(entry.code, code) {
            return Some(entry);
        }
        i += 1;
    }
    assert(entries@.skip(i as int) =~= Seq::<LanguageDiagnosticMessage>::empty());
    None
}


proof fn lemma_first_with_code(entries: Seq<LanguageDiagnosticMessage>, code: Seq<char>)
    ensures
        match first_with_code(entries, code) {
            Some(e) => exists|k: int|
                0 <= k < entries.len() && #[trigger] entries[k] == e && e.code@ == code && forall|j: int|
                    0 <= j < k ==> (#[trigger] entries[j]).code@ != code,
            None => forall|k: int| 0 <= k < entries.len() ==> (#[trigger] entries[k]).code@ != code,
        },
    decreases entries.len(),
{
    if entries.len() > 0 {
        lemma_first_with_code(entries.drop_first(), code);
        let rest = entries.drop_first();
        assert forall|k: int| 0 < k < entries.len() implies #[trigger] entries[k] == rest[k - 1] by {}
        if entries[0].code@ != code {
            match first_with_code(rest, code) {
                Some(e) => {
                    let k = choose|k: int|
                        0 <= k < rest.len() && #[trigger] rest[k] == e && e.code@ == code && forall|j: int|
                            0 <= j < k ==> (#[trigger] rest[j]).code@ != code;
                    assert(entries[k + 1] == e);
                    assert forall|j: int| 0 <= j < k + 1 implies (#[trigger] entries[j]).code@ != code by {
                        if j > 0 {
                            assert(entries[j] == rest[j - 1]);
                        }
                    }
                },
                None => {
                    assert forall|k: int| 0 <= k < entries.len() implies (#[trigger] entries[k]).code@ != code by {
                        if k > 0 {
                            assert(entries[k] == rest[k - 1]);
                        }
                    }
                },
            }
        } else {
            assert(entries[0] == entries[0]);
        }
    }
}

proof fn lemma_lookup_distinct(entries: Seq<LanguageDiagnosticMessage>, code: Seq<char>)
    requires
        forall|i: int, j: int|
            0 <= i < j < entries.len() ==> (#[trigger] entries[i]).code@ != (#[trigger] entries[j]).code@,
    ensures
        first_with_code(entries, code) is Some <==> exists|k: int|
            0 <= k < entries.len() && (#[trigger] entries[k]).code@ == code,
        forall|k: int|
            0 <= k < entries.len() && (#[trigger] entries[k]).code@ == code ==> first_with_code(entries, code)
                == Some(entries[k]),
{
    lemma_first_with_code(entries, code);
    match first_with_code(entries, code) {
        Some(e) => {
            let k = choose|k: int|
                0 <= k < entries.len() && #[trigger] entries[k] == e && e.code@ == code && forall|j: int|
                    0 <= j < k ==> (#[trigger] entries[j]).code@ != code;
            assert forall|m: int| 0 <= m < entries.len() && (#[trigger] entries[m]).code@ == code implies e
                == entries[m] by {
                if m < k {
                    assert(entries[m].code@ != code);
                } else if m > k {
                    assert(entries[k].code@ != entries[m].code@);
                }
            }
        },
        None => {},
    }
}

proof fn lemma_language_codes_distinct()
    ensures
        forall|i: int, j: int|
            0 <= i < j < 6 ==> (#[trigger] spec_language_messages()[i]).code@
                != (#[trigger] spec_language_messages()[j]).code@,
{
    let reg = spec_language_messages();
    reveal_strlit("parser.rec.invalid_form");
    reveal_strlit("parser.rec.unsupported_position");
    reveal_strlit("parser.lambda.param_missing");
    reveal_strlit("typeck.lambda.capture_unsupported");
    reveal_strlit("typeck.lambda.capture_mut_unsupported");
    reveal_strlit("typeck.rec.unresolved_ident");
    assert(reg[0].code@.len() == 23);
    assert(reg[1].code@.len() == 31);
    assert(reg[2].code@.len() == 27);
    assert(reg[3].code@.len() == 33);
    assert(reg[4].code@.len() == 37);
    assert(reg[5].code@.len() == 27);
    assert(reg[2].code@[0] == 'p');
    assert(reg[5].code@[0] == 't');
}

/// The language registry holds six messages, all errors, whose codes are
/// pairwise different; looking a code up finds a message exactly when one
/// has that code, and then it is that message.
pub proof fn lemma_language_registry(code: Seq<char>)
    ensures
        spec_language_messages().len() == 6,
        forall|i: int, j: int|
            0 <= i < j < 6 ==> (#[trigger] spec_language_messages()[i]).code@
                != (#[trigger] spec_language_messages()[j]).code@,
        forall|i: int| 0 <= i < 6 ==> (#[trigger] spec_language_messages()[i]).severity == DiagnosticSeverity::Error,
        first_with_code(spec_language_messages(), code) is Some <==> exists|k: int|
            0 <= k < 6 && (#[trigger] spec_language_messages()[k]).code@ == code,
        forall|k: int|
            0 <= k < 6 && (#[trigger] spec_language_messages()[k]).code@ == code ==> first_with_code(
                spec_language_messages(),
                code,
            ) == Some(spec_language_messages()[k]),
{
    lemma_language_codes_distinct();
    lemma_lookup_distinct(spec_language_messages(), code);
}

} // verus!
