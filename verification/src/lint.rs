use vstd::prelude::*;

use crate::domain::{
    DatasourceKind, NaturalIdentity, datasource_kind_text, valid_project_text, valid_repository_name,
    valid_skill_name,
};
use crate::error::{AppError, ApplicationError};
use crate::kind::EntityKind;
use crate::output::{Action, Outcome};
use crate::json_value::JsonValue;
use crate::parse::{
    ParsedDeclaration, identity_present, key_field, lemma_suspicious_paths_reportable, nested_text, reportable_path,
    suspicious_paths,
};
use crate::render::{
    WarningCategory, WarningCode, WarningInput, WarningSource, valid_field_path, valid_source_file,
    warning_code_text,
};
use crate::text::{has_control, sorted_texts, text_less, texts_of, utf8_len, utf8_len_at_most};

verus! {

/// Whether a declaration's natural identity is present and valid: a valid
/// project, a valid key for the kind (slug, Skill name or repository name)
/// and, for a Datasource, a supported `spec.index_type`.
pub open spec fn identity_valid(kind: EntityKind, value: JsonValue) -> bool {
    identity_present(kind, value) && ({
        let project = nested_text(value, "metadata"@, "project"@)->0;
        let key = nested_text(value, "metadata"@, key_field(kind))->0;
        valid_project_text(project) && match kind {
            EntityKind::Assistant | EntityKind::Workflow => valid_project_text(key),
            EntityKind::Skill => valid_skill_name(key),
            EntityKind::Datasource => valid_repository_name(key) && exists|d: DatasourceKind|
                datasource_kind_text(d) == nested_text(value, "spec"@, "index_type"@)->0,
        }
    })
}

/// The `valid` outcome of a declaration whose identity is valid: its kind,
/// its `metadata.project` and its key field; an absent or invalid identity
/// is a schema error.
pub fn valid_outcome(declaration: &ParsedDeclaration) -> (r: Result<Outcome, AppError>)
    ensures
        r is Ok <==> identity_valid(declaration.kind, declaration.value),
        r is Ok ==> r->Ok_0.action == Action::Valid && r->Ok_0.identity.kind_spec()
            == declaration.kind && r->Ok_0.adoption_required is None
            && r->Ok_0.identity.project_spec() == nested_text(declaration.value, "metadata"@, "project"@)->0
            && r->Ok_0.identity.key_spec() == nested_text(
                declaration.value,
                "metadata"@,
                key_field(declaration.kind),
            )->0,
        r is Err ==> r->Err_0 is Schema,
{
    let parsed = declaration.natural_identity()?;
    let identity = NaturalIdentity::try_from_parsed(parsed)?;
    proof {
        assert(identity.kind_spec() == declaration.kind);
    }
    let project = identity.project().to_owned();
    let selector = identity.selector().to_owned();
    match identity.kind() {
        EntityKind::Assistant => Ok(Outcome::assistant(Action::Valid, project, selector)),
        EntityKind::Workflow => Ok(Outcome::workflow(Action::Valid, project, selector)),
        EntityKind::Skill => Ok(Outcome::new_skill(Action::Valid, project, selector)),
        EntityKind::Datasource => Ok(Outcome::new_datasource(Action::Valid, project, selector)),
    }
}

/// Warnings sorted by warning code, then by field path.
pub open spec fn warnings_sorted(w: Seq<WarningInput>) -> bool {
    forall|i: int, j: int|
        0 <= i < j < w.len() ==> text_less(
            warning_code_text(w[i].warning_code),
            warning_code_text(w[j].warning_code),
        ) || (w[i].warning_code == w[j].warning_code && text_less(
            w[i].source.field_path.text(),
            w[j].source.field_path.text(),
        ))
}

/// Whether a warning is the deprecated-mode warning of `file`.
pub open spec fn deprecated_warning(w: WarningInput, file: Seq<char>) -> bool {
    w.warning_code == WarningCode::WDeprecatedValue && w.category == WarningCategory::DeprecatedValue
        && w.source.file.text() == file && w.source.line is None && w.source.column is None
        && w.source.field_path.text() == "spec.mode"@
}

/// Whether a warning is the secret-like-field warning of `file` at `path`.
pub open spec fn secret_warning(w: WarningInput, file: Seq<char>, path: Seq<char>) -> bool {
    w.warning_code == WarningCode::WSuspectedPlaintextSecret && w.category
        == WarningCategory::SecretLikeField && w.source.file.text() == file && w.source.line is None
        && w.source.column is None && w.source.field_path.text() == path
}

/// The field paths of the warnings from position `lead` on, in order.
pub open spec fn reported_paths(w: Seq<WarningInput>, lead: int) -> Seq<Seq<char>> {
    Seq::new((w.len() - lead) as nat, |i: int| w[lead + i].source.field_path.text())
}

/// The secret-like field paths of a declaration.
pub open spec fn declaration_secret_paths(value: JsonValue) -> Set<Seq<char>> {
    suspicious_paths(value, (Seq::<char>::empty(), true))
}

/// Whether the lint of a declaration reports at least one warning.
pub open spec fn warns(declaration: ParsedDeclaration) -> bool {
    declaration.workflow_is_autonomous_spec() || declaration_secret_paths(declaration.value)
        != Set::<Seq<char>>::empty()
}

/// Whether the selected file's name can name the source of the lint's
/// warnings: present, non-empty, at most 4096 bytes and, when a warning is
/// reported, without control characters.
pub open spec fn warnable_file(declaration: ParsedDeclaration, file_name: Option<&str>) -> bool {
    &&& file_name is Some
    &&& file_name->0@.len() > 0
    &&& utf8_len(file_name->0@) <= 4096
    &&& warns(declaration) ==> !has_control(file_name->0@)
}

/// The declaration-scoped warnings of a lint: the deprecated autonomous
/// mode first, then one warning for each secret-like field, in path order.
/// The selected file's name must be non-empty and at most 4096 bytes, and
/// hold no control character when it names a warning.
pub fn collect_warnings(declaration: &ParsedDeclaration, file_name: Option<&str>) -> (r: Result<Vec<WarningInput>, AppError>)
    ensures
        r is Ok <==> warnable_file(*declaration, file_name),
        (file_name is None || file_name->0@.len() == 0 || utf8_len(file_name->0@) > 4096) ==> (r is Err
            && r->Err_0 is Schema),
        r is Err ==> (r->Err_0 is Schema || r->Err_0 is ApplicationLayer),
        r is Ok ==> ({
            let file = file_name->0@;
            let w = r->Ok_0@;
            let lead: int = if declaration.workflow_is_autonomous_spec() { 1 } else { 0 };
            &&& warnings_sorted(w)
            &&& (lead == 1 ==> deprecated_warning(w[0], file))
            &&& forall|i: int| lead <= i < w.len() ==> secret_warning(w[i], file, #[trigger] w[i].source.field_path.text())
            &&& forall|i: int| lead <= i < w.len() ==> suspicious_paths(declaration.value, (Seq::<char>::empty(), true)).contains(w[i].source.field_path.text())
            &&& w.len() >= lead
            &&& sorted_texts(reported_paths(w, lead))
            &&& reported_paths(w, lead).to_set() == declaration_secret_paths(declaration.value)
        }),
{
    let file = match file_name {
        Some(name) => name,
        None => {
            return Err(AppError::Schema("selected filename cannot be represented safely".to_owned()));
        },
    };
    if file.is_empty() || !utf8_len_at_most(file, 4096) {
        return Err(AppError::Schema("selected filename cannot be represented safely".to_owned()));
    }
    let mut warnings: Vec<WarningInput> = Vec::new();
    let autonomous = declaration.workflow_is_autonomous();
    proof {
        reveal_strlit("spec.mode");
        assert(!has_control("spec.mode"@)) by {
            assert forall|i: int| 0 <= i < "spec.mode"@.len() implies !crate::text::is_control_char(#[trigger] "spec.mode"@[i]) by {
                assert(0 <= i < 9);
            }
        }
        assert(utf8_len("spec.mode"@) <= 1024) by {
            crate::text::lemma_utf8_len_bound("spec.mode"@);
        }
        lemma_suspicious_paths_reportable(declaration.value, (Seq::<char>::empty(), true));
    }
    if autonomous {
        let source = match WarningSource::try_new(file.to_owned(), None, None, "spec.mode".to_owned()) {
            Ok(s) => s,
            Err(e) => {
                return Err(AppError::ApplicationLayer(ApplicationError::OutputField(e)));
            },
        };
        warnings.push(WarningInput::new(WarningCode::WDeprecatedValue, WarningCategory::DeprecatedValue, source));
    }
    let paths = declaration.suspicious_secret_paths();
    let ghost lead: int = if autonomous { 1 } else { 0 };
    proof {
        reveal_strlit("W_DEPRECATED_VALUE");
        reveal_strlit("W_SUSPECTED_PLAINTEXT_SECRET");
        assert(text_less("W_DEPRECATED_VALUE"@, "W_SUSPECTED_PLAINTEXT_SECRET"@)) by {
            reveal_with_fuel(text_less, 4);
            let a = "W_DEPRECATED_VALUE"@;
            let b = "W_SUSPECTED_PLAINTEXT_SECRET"@;
            assert(a[0] == b[0] && a[1] == b[1]);
            assert(a.drop_first().drop_first()[0] == 'D');
            assert(b.drop_first().drop_first()[0] == 'S');
        }
    }
    let mut index: usize = 0;
    while index < paths.len()
        invariant
            0 <= index <= paths@.len(),
            file_name is Some && file_name->0@ == file@ && file@.len() > 0 && utf8_len(file@) <= 4096,
            sorted_texts(texts_of(paths@)),
            texts_of(paths@).to_set() == suspicious_paths(declaration.value, (Seq::<char>::empty(), true)),
            lead == (if autonomous { 1int } else { 0 }),
            autonomous == declaration.workflow_is_autonomous_spec(),
            warnings@.len() == lead + index,
            text_less("W_DEPRECATED_VALUE"@, "W_SUSPECTED_PLAINTEXT_SECRET"@),
            lead == 1 ==> deprecated_warning(warnings@[0], file@),
            forall|i: int| lead <= i < warnings@.len() ==> secret_warning(warnings@[i], file@, paths@[i - lead]@),
            autonomous ==> !has_control(file@),
            index > 0 ==> !has_control(file@),
            forall|x: Seq<char>| #[trigger] suspicious_paths(declaration.value, (Seq::<char>::empty(), true)).contains(x)
                ==> reportable_path(x),
        decreases paths.len() - index,
    {
        proof {
            assert(texts_of(paths@)[index as int] == paths@[index as int]@);
            assert(texts_of(paths@).to_set().contains(paths@[index as int]@));
        }
        let source = match WarningSource::try_new(file.to_owned(), None, None, paths[index].clone()) {
            Ok(s) => s,
            Err(e) => {
                proof {
                    assert(suspicious_paths(declaration.value, (Seq::<char>::empty(), true)) != Set::<
                        Seq<char>,
                    >::empty()) by {
                        assert(suspicious_paths(declaration.value, (Seq::<char>::empty(), true)).contains(
                            paths@[index as int]@,
                        ));
                    }
                }
                return Err(AppError::ApplicationLayer(ApplicationError::OutputField(e)));
            },
        };
        warnings.push(WarningInput::new(WarningCode::WSuspectedPlaintextSecret, WarningCategory::SecretLikeField, source));
        index = index + 1;
    }
    proof {
        let w = warnings@;
        assert forall|i: int, j: int| 0 <= i < j < w.len() implies text_less(
            warning_code_text(w[i].warning_code),
            warning_code_text(w[j].warning_code),
        ) || (w[i].warning_code == w[j].warning_code && text_less(
            w[i].source.field_path.text(),
            w[j].source.field_path.text(),
        )) by {
            if i >= lead {
                assert(texts_of(paths@)[i - lead] == paths@[i - lead]@);
                assert(texts_of(paths@)[j - lead] == paths@[j - lead]@);
            }
        }
        assert forall|i: int| lead <= i < w.len() implies suspicious_paths(declaration.value, (Seq::<char>::empty(), true)).contains(w[i].source.field_path.text()) by {
            assert(texts_of(paths@)[i - lead] == paths@[i - lead]@);
            assert(texts_of(paths@).contains(paths@[i - lead]@));
        }
        assert(reported_paths(w, lead) =~= texts_of(paths@)) by {
            assert forall|i: int| 0 <= i < texts_of(paths@).len() implies reported_paths(w, lead)[i] == texts_of(paths@)[i] by {
                assert(secret_warning(w[lead + i], file@, paths@[lead + i - lead]@));
            }
        }
        if suspicious_paths(declaration.value, (Seq::<char>::empty(), true)) != Set::<Seq<char>>::empty() {
            if paths@.len() == 0 {
                assert(texts_of(paths@).to_set() =~= Set::<Seq<char>>::empty());
            }
        }
    }
    Ok(warnings)
}

} // verus!
