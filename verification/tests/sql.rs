use timeless_tools::parameters::{parameter, strip_colons, strip_markers};
use timeless_tools::recipes::{
    collect_recipes, has_blocks, parse_recipes, recipe_blocks, recipe_sql, LookupError, RecipeError, RecipeLine,
};
use timeless_tools::documents::document;
use timeless_tools::regression_documents::{accepts_cells, accepts_documents, document_cells};
use timeless_tools::regression_steps::semantic_regressions;
use timeless_tools::regressions::{
    accepts, bound_parameter, refused_with, remembers, Bind, Documents, Judge, Rule, Source, Step,
};
use timeless_tools::setup::{setup, SetupStep};
use timeless_tools::splitter::{split_sql, SplitError};
use timeless_tools::values::{Literal, SqlValue};

#[test]
fn sql_splitter_preserves_semicolons_in_literals_and_comments() {
    let statements = split_sql(
        "SELECT ';' AS value; -- ; is not a boundary\n\
             SELECT \"also;not\"; /* neither;is this */ SELECT 3",
    )
    .unwrap();
    assert_eq!(statements.len(), 3);
    assert!(statements[0].contains("';'"));
    assert!(statements[1].contains("\"also;not\""));
    assert!(statements[2].ends_with("SELECT 3"));
}

#[test]
fn statements_join_to_their_text() {
    let statements = split_sql(" SELECT 1 ;; SELECT 'it''s' ; ").unwrap();
    assert_eq!(statements, ["SELECT 1 ;", "SELECT 'it''s' ;"]);
    let block = "  SELECT ';' -- a ; b\n ; /* ; */ SELECT [x;] ;;\tSELECT `;` -- tail ;  ";
    let statements_of_block = split_sql(block).unwrap();
    assert_eq!(statements_of_block.len(), 3);
    for statement in &statements_of_block {
        assert_eq!(split_sql(statement).unwrap(), [statement.clone()]);
    }
    assert_eq!(split_sql("\u{a0};").unwrap(), [";"]);
    assert_eq!(split_sql(";").unwrap(), Vec::<String>::new());
    assert_eq!(split_sql("SELECT 'open").err(), Some(SplitError::Unterminated));
    assert_eq!(split_sql("SELECT /* open").err(), Some(SplitError::Unterminated));
    assert_eq!(split_sql("  ").unwrap(), Vec::<String>::new());
}

const DOCUMENT: &str = "# SQL\n\n## Recipe index\n\n\
             | recipe | state |\n\
             |---|---|\n\
             | [`SQL-PROM-001`](#sql-prom-001-example) | current |\n\n\
             ### SQL-PROM-001: example\n\n```sql\nSELECT 1;\n```\n";

#[test]
fn recipe_index_must_cover_every_executable_recipe() {
    assert_eq!(parse_recipes(DOCUMENT).unwrap().len(), 1);

    let error = parse_recipes(
        "# SQL\n\n## Recipe index\n\n\
             | recipe | state |\n\
             |---|---|\n\n\
             ### SQL-PROM-001: example\n\n```sql\nSELECT 1;\n```\n",
    )
    .unwrap_err()
    .message("QUERY_SQL_EQUIVALENTS.md");
    assert!(error.contains("missing [\"SQL-PROM-001\"]"), "{error}");
}

#[test]
fn recipes_are_found_by_their_names() {
    let recipes = parse_recipes(DOCUMENT).unwrap();
    assert_eq!(recipes[0].identifier, "SQL-PROM-001");
    assert_eq!(recipe_sql(&recipes, "SQL-PROM-001", 0).unwrap(), "SELECT 1;");
    assert!(matches!(recipe_sql(&recipes, "SQL-PROM-001", 1), Err(LookupError::NoStatement)));
    assert!(matches!(recipe_sql(&recipes, "SQL-PROM-002", 0), Err(LookupError::NoRecipe)));
    assert_eq!(recipe_blocks(&recipes, "SQL-PROM-001").unwrap().len(), 1);
    assert!(recipe_blocks(&recipes, "SQL-PROM-002").is_none());
    assert!(has_blocks(&recipes, "SQL-PROM-001", 1));
    assert!(!has_blocks(&recipes, "SQL-PROM-001", 2));
    assert!(!has_blocks(&recipes, "SQL-PROM-002", 0));
    assert_eq!(strip_colons("::$a:"), "$a:");
    assert_eq!(strip_markers("::$a:"), "a:");
    assert!(remembers(Judge::Remember(2)) && !remembers(Judge::Remembered));
    assert!(refused_with("limit must be positive", "limit", "positive"));
    assert!(!refused_with("limit must be positive", "limit", "negative"));
}

#[test]
fn documents_are_refused_for_each_fault() {
    let open = "### SQL-PROM-001: a\n\n```sql\nSELECT 1;\n";
    let error = parse_recipes(open).unwrap_err();
    assert!(matches!(error, RecipeError::UnterminatedFence));
    assert_eq!(error.message("doc.md"), "doc.md has an unterminated SQL fence");
    let twice = "### SQL-PROM-001: a\n```sql\nSELECT 1;\n```\n### SQL-PROM-001: b\n```sql\nSELECT 2;\n```\n";
    assert_eq!(
        parse_recipes(twice).unwrap_err().message("doc.md"),
        "duplicate SQL recipe SQL-PROM-001"
    );
    let empty = "### SQL-PROM-001: a\n\ntext\n";
    assert_eq!(
        parse_recipes(empty).unwrap_err().message("doc.md"),
        "SQL recipe SQL-PROM-001 has no executable SQL fence"
    );
    let indexed = DOCUMENT.replace(
        "| current |\n",
        "| current |\n| [`SQL-PROM-001`](#sql-prom-001-example) | current |\n",
    );
    assert_eq!(
        parse_recipes(&indexed).unwrap_err().message("doc.md"),
        "duplicate SQL recipe index entry SQL-PROM-001"
    );
}

#[test]
fn lines_are_collected_by_what_was_found_in_them() {
    let line = |text: &str, heading: Option<&str>| RecipeLine {
        text: text.to_owned(),
        heading: heading.map(str::to_owned),
        entry: None,
    };
    let lines = vec![
        line("### SQL-LOG-001: x", Some("SQL-LOG-001")),
        line("```sql", None),
        line("SELECT 1", None),
        line("```", None),
    ];
    match collect_recipes(&lines) {
        Err(RecipeError::IndexMismatch { missing, unknown }) => {
            assert_eq!(missing, ["SQL-LOG-001"]);
            assert!(unknown.is_empty());
        }
        _ => panic!("no mismatch"),
    }
}

#[test]
fn parameters_are_bound_by_name() {
    assert_eq!(strip_markers(":start"), "start");
    assert_eq!(strip_markers("@start"), "start");
    assert_eq!(parameter("SQL-PROM-002", "metric"), Literal::Text("avg_precision"));
    assert_eq!(parameter("SQL-PROM-022", "metric"), Literal::Text("max_window"));
    assert_eq!(parameter("SQL-PROM-001", "filter_json"), Literal::Null);
    assert_eq!(parameter("SQL-MQL-001", "rhs_metric"), Literal::Text("requests_total"));
    let bind = Bind::One(("limit", Literal::Integer(3)));
    assert_eq!(bound_parameter(bind, "SQL-LOG-001", "limit"), Literal::Integer(3));
    assert_eq!(bound_parameter(bind, "SQL-PROM-002", "metric"), Literal::Text("avg_precision"));
}

#[test]
fn the_fixture_begins_with_its_tables_and_commits() {
    let mut steps = Vec::new();
    while let Some(step) = setup(steps.len()) {
        steps.push(step);
    }
    assert_eq!(*steps.last().unwrap(), SetupStep::Commit);
    assert!(matches!(steps[0], SetupStep::Batch(sql) if sql.contains("CREATE VIRTUAL TABLE")));
    assert!(steps.iter().any(|step| matches!(step, SetupStep::Begin)));
}

#[test]
fn regressions_name_their_checks() {
    let mut count = 0;
    while let Some(step) = semantic_regressions(count) {
        if count == 0 {
            match step {
                Step::Run(check) => {
                    assert_eq!(check.label, "SQL-PROM-001 row count");
                    assert!(matches!(check.source, Source::Sql(_)));
                    let rows = vec![vec![SqlValue::Integer(2)]];
                    let nothing: Vec<Vec<SqlValue>> = Vec::new();
                    assert!(!accepts(check.judge, &nothing, &nothing));
                    assert!(accepts(Judge::Count(1), &rows, &nothing));
                    assert!(!accepts(Judge::Count(2), &rows, &nothing));
                }
                _ => panic!("not a check"),
            }
        }
        count += 1;
    }
    assert!(count > 300, "{count}");
}

#[test]
fn documents_are_read_from_their_cells() {
    let text = |value: &str| SqlValue::Text(value.to_owned());
    let rows = vec![
        vec![SqlValue::Integer(1), text("{\"host\":\"a\"}"), text("[]")],
        vec![SqlValue::Integer(2), text("{\"host\":1}"), text("{")],
    ];
    assert_eq!(document_cells(&rows, Documents::Nothing).unwrap(), Vec::<String>::new());
    assert_eq!(
        document_cells(&rows, Documents::Column(1)).unwrap(),
        ["{\"host\":\"a\"}", "{\"host\":1}"]
    );
    assert_eq!(
        document_cells(&rows, Documents::Columns(2, 1)).unwrap(),
        ["[]", "{\"host\":\"a\"}", "{", "{\"host\":1}"]
    );
    assert_eq!(document_cells(&rows, Documents::All), None);
    assert_eq!(document_cells(&rows, Documents::Column(0)), None);
    assert_eq!(document_cells(&rows, Documents::Column(3)), None);
    assert!(accepts_cells(Rule::HostKept, &rows, Documents::Column(1)));
    assert!(!accepts_cells(Rule::HostOverwritten, &rows, Documents::Column(1)));
    assert!(accepts_cells(Rule::HostOverwritten, &rows[1..].iter().map(|row| vec![text(match &row[1] {
        SqlValue::Text(cell) => cell,
        _ => panic!("no text"),
    })]).collect(), Documents::All));
    assert!(!accepts_cells(Rule::Nothing, &rows, Documents::Column(2)));
    assert!(accepts_cells(Rule::Nothing, &rows, Documents::Nothing));
}

#[test]
fn documents_are_held_to_their_rules() {
    let judged = |rule: Rule, texts: &[&str]| {
        accepts_documents(rule, &texts.iter().map(|text| document(text).unwrap()).collect())
    };
    let first = r#"{"host":"web-1","duration_ms":12,"nested":{"ok":true,"none":null,"empty":""},
        "tags":["prod","",123,true,false,null,{"nested":"ignored"},["ignored"],"ab","*"]}"#;
    let second = r#"{"host":"web-2","duration_ms":4,"nested":{"ok":"true","empty":null},
        "tags":["dev",1.5,-2,"123","a\"b","a\nb","a/b"]}"#;
    assert!(judged(Rule::Packed, &[first, second]));
    assert!(!judged(Rule::Packed, &[second, first]));
    assert!(!judged(Rule::Packed, &[first]));
    assert!(!judged(Rule::Packed, &[first, &second.replace("1.5", "1.25")]));
    assert!(judged(Rule::TagsArrays, &[first, second]));
    assert!(judged(Rule::RowExtrema, &[second, first]));
    let unpacked = [
        r#"{"ok":true,"count":2,"none":null,"empty":"","missing":""}"#,
        r#"{"ok":"true","count":"2","none":"","empty":null,"missing":""}"#,
    ];
    assert!(judged(Rule::Unpacked, &unpacked));
    assert!(!judged(Rule::Unpacked, &[unpacked[1], unpacked[0]]));
    assert!(judged(Rule::Deleted, &[r#"{"service":"api","deployment":{}}"#]));
    assert!(!judged(Rule::Deleted, &[r#"{"service":"api","deployment":{"region":1}}"#]));
    assert!(judged(Rule::FirstRetained, &[r#"{"duration_ms":4,"service":"api","nested":{"empty":null}}"#]));
    assert!(judged(Rule::LastRetained, &[r#"{"duration_ms":12,"service":"api","nested":{"empty":""}}"#]));
    assert!(judged(Rule::CopiedDuration, &[r#"{"copied":1.5,"duration_ms":1.50,"host":"a"}"#]));
    assert!(!judged(Rule::CopiedDuration, &[r#"{"copied":1,"duration_ms":1.0,"host":"a"}"#]));
    assert!(judged(Rule::RowAny, &[r#"{"nested":{"ok":true,"none":null}}"#]));
    assert!(!judged(Rule::RowAny, &[r#"{"nested":{"ok":true,"none":null},"a":1}"#]));
    assert!(judged(Rule::CopiedNull, &[r#"{"copied":null}"#, r#"{"copied":""}"#]));
    assert!(judged(Rule::MovedFlags, &[r#"{"moved":true}"#, r#"{"moved":"true"}"#]));
    assert!(!judged(Rule::MovedNull, &[r#"{"moved":null,"nested":{"none":1}}"#, r#"{"moved":""}"#]));
}
