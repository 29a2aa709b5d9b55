use imp_geo::aliases::{default_aliases, find_injections, rule_applies, Alias, KnownName};
use imp_geo::bulk::{insert_statement, Target};
use imp_geo::dedup::{is_shadowed, remove_dup_cities, shares_scope, Scoped};
use imp_geo::enrich::{drop_placeholder, lookup, update_cities_data, CityEntry, Reference};
use imp_geo::err::{get_header_line, report_error, sentences_of, star_line, AppError};
use imp_geo::alt_names::{chunk_records, AltRec};
use imp_geo::line::Fault;
use imp_geo::merge::{aggregate, language_of, AltName, Language};
use imp_geo::names::{add_missing_city_names, entity_has_default, same_entry, NameEntry};
use imp_geo::plan::{after, first, Next, Step};

fn place(id: i64, name: &str, country: Option<&str>, area: Option<&str>) -> Scoped {
    Scoped {
        id,
        name: name.into(),
        country_name: country.map(String::from),
        disamb_name: area.map(String::from),
    }
}

#[test]
fn of_two_places_with_one_scope_the_smaller_identifier_stays() {
    let rows = vec![
        place(20, "Springfield", Some("United States"), Some("Illinois")),
        place(10, "Springfield", Some("United States"), Some("Illinois")),
    ];
    let (kept, deleted) = remove_dup_cities(&rows);
    let ids: Vec<i64> = kept.iter().map(|r| r.id).collect();
    assert_eq!(ids, vec![10]);
    assert_eq!(deleted, vec![20]);
}

#[test]
fn duplicates_collapse_to_the_least_of_each_scope() {
    let rows = vec![
        place(5, "A", Some("X"), Some("P")),
        place(3, "A", Some("X"), Some("P")),
        place(9, "A", Some("X"), Some("P")),
        place(4, "A", Some("X"), Some("Q")),
        place(1, "B", Some("X"), Some("P")),
        place(8, "A", Some("Y"), Some("P")),
        place(7, "C", None, Some("P")),
        place(6, "C", None, Some("P")),
        place(2, "D", Some("X"), None),
        place(11, "D", Some("X"), None),
    ];
    let (kept, deleted) = remove_dup_cities(&rows);
    let ids: Vec<i64> = kept.iter().map(|r| r.id).collect();
    assert_eq!(ids, vec![3, 4, 1, 8, 7, 6, 2, 11]);
    assert_eq!(deleted, vec![5, 9]);
    assert_eq!(kept.len() + deleted.len(), rows.len());
    assert!(is_shadowed(&rows, 0));
    assert!(!is_shadowed(&rows, 1));
    assert!(!is_shadowed(&rows, 7));
    assert!(shares_scope(&rows[0], &rows[1]));
    assert!(!shares_scope(&rows[0], &rows[3]));
    assert!(!shares_scope(&rows[6], &rows[7]));
    assert!(!shares_scope(&rows[6], &rows[6]));
    let (kept, deleted) = remove_dup_cities(&Vec::new());
    assert!(kept.is_empty() && deleted.is_empty());
}

fn name(id: i64, canonical: &str, alt: &str) -> NameEntry {
    NameEntry {
        id,
        canonical: canonical.into(),
        disamb_id: Some(id * 10),
        disamb_name: Some("Area".into()),
        country_id: None,
        country_name: Some("Land".into()),
        alt_name: alt.into(),
        langlist: Some("English".into()),
    }
}

#[test]
fn every_entity_gets_its_canonical_name() {
    let rows = vec![
        name(1, "London", "Londres"),
        name(1, "London", "London"),
        name(2, "Munich", "München"),
        name(2, "Munich", "Monaco"),
        name(3, "Rome", "Roma"),
    ];
    assert!(entity_has_default(&rows, 1));
    assert!(!entity_has_default(&rows, 2));
    assert!(!entity_has_default(&rows, 4));
    let added = add_missing_city_names(&rows);
    assert_eq!(added.len(), 2);
    assert_eq!((added[0].id, added[0].canonical.as_str(), added[0].alt_name.as_str()), (2, "Munich", "Munich"));
    assert_eq!((added[1].id, added[1].canonical.as_str(), added[1].alt_name.as_str()), (3, "Rome", "Rome"));
    assert_eq!(added[0].langlist, None);
    assert_eq!(added[0].disamb_id, Some(20));
    assert_eq!(added[0].disamb_name.as_deref(), Some("Area"));
    assert_eq!(added[0].country_name.as_deref(), Some("Land"));
    let mut after: Vec<&NameEntry> = rows.iter().collect();
    after.extend(added.iter());
    for row in rows.iter() {
        assert!(after.iter().any(|r| r.id == row.id && r.alt_name == r.canonical));
    }
    let mut all = rows;
    all.extend(added);
    assert!(add_missing_city_names(&all).is_empty());
    assert!(same_entry(&all[0], &name(1, "London", "Londres")));
    assert!(!same_entry(&all[0], &all[1]));
}

fn entry(id: i64, kind: &str, code: &str, country: &str) -> CityEntry {
    CityEntry {
        id,
        name: format!("city {}", id),
        disamb_type: kind.into(),
        disamb_id: None,
        disamb_code: Some(code.into()),
        disamb_name: None,
        country_id: Some(-1),
        country_code: Some(country.into()),
        country_name: None,
    }
}

fn reference(code: &str, id: i64, name: &str) -> Reference {
    Reference { code: code.into(), id, name: name.into() }
}

#[test]
fn places_are_updated() {
    let rows = vec![
        entry(1, "admin1", "US.CA", "US"),
        entry(2, "admin2", "GB.ENG.GLA", "GB"),
        entry(3, "admin1", "none", "DE"),
        entry(4, "none", "none", "none"),
        entry(5, "admin1", "GB.ENG.GLA", "ZZ"),
        entry(6, "admin1", "US.TX", "US"),
    ];
    let countries = vec![
        reference("US", 100, "United States"),
        reference("GB", 101, "United Kingdom"),
        reference("US", 999, "Other"),
    ];
    let adm1s = vec![reference("US.CA", 200, "California"), reference("none", 201, "Nowhere")];
    let adm2s = vec![reference("GB.ENG.GLA", 300, "Greater London")];
    let (out, counts) = update_cities_data(&rows, &countries, &adm1s, &adm2s);
    assert_eq!(out.len(), 6);
    assert_eq!((counts.admin1, counts.admin2), (1, 1));
    assert_eq!(out[0].country_id, Some(100));
    assert_eq!(out[0].country_name.as_deref(), Some("United States"));
    assert_eq!(out[0].disamb_id, Some(200));
    assert_eq!(out[0].disamb_name.as_deref(), Some("California"));
    assert_eq!(out[0].disamb_code.as_deref(), Some("US.CA"));
    assert_eq!(out[1].country_id, Some(101));
    assert_eq!(out[1].disamb_id, Some(300));
    assert_eq!(out[1].disamb_name.as_deref(), Some("Greater London"));
    assert_eq!(out[2].disamb_code, None);
    assert_eq!(out[2].disamb_id, None);
    assert_eq!(out[2].country_id, Some(-1));
    assert_eq!(out[2].country_code.as_deref(), Some("DE"));
    assert_eq!(out[3].disamb_code, None);
    assert_eq!(out[3].country_code, None);
    assert_eq!(out[3].country_id, None);
    assert_eq!(out[3].country_name, None);
    assert_eq!(out[4].disamb_id, None);
    assert_eq!(out[5].disamb_id, None);
    assert_eq!(out[5].country_id, Some(100));
    for row in out.iter() {
        assert_ne!(row.disamb_code.as_deref(), Some("none"));
        assert_ne!(row.country_code.as_deref(), Some("none"));
    }
    assert_eq!(drop_placeholder(&Some("none".into())), None);
    assert_eq!(drop_placeholder(&Some("None".into())), Some("None".to_string()));
    assert_eq!(drop_placeholder(&None), None);
    assert_eq!(lookup(&countries, &Some("US".into())), Some(0));
    assert_eq!(lookup(&countries, &Some("FR".into())), None);
    assert_eq!(lookup(&countries, &None), None);
}

fn known(city: &str, alt: &str, country: Option<&str>) -> KnownName {
    KnownName { city_name: city.into(), alt_name: alt.into(), country_name: country.map(String::from) }
}

#[test]
fn aliases_are_found_rule_by_rule() {
    let rules = default_aliases();
    assert_eq!(rules.len(), 13);
    assert_eq!(rules[0].alias, "new york");
    assert_eq!(rules[12].alias, "ciudad autonoma de buenos aires");
    assert_eq!(rules[12].country_name, Some("Argentina"));
    let rows = vec![
        known("Buenos Aires", "buenos aires", Some("Argentina")),
        known("Buenos Aires", "buenos aires", Some("Costa Rica")),
        known("Munich", "munich", Some("Germany")),
        known("Munich", "muenchen", Some("Germany")),
        known("New York City", "new york city", None),
        known("Buenos Aires", "buenos aires", None),
    ];
    let found = find_injections(&rules, &rows);
    assert_eq!(found, vec![(0, 4), (7, 2), (11, 0), (12, 0)]);
    let rule = Alias { alias: "a", city_name: "C", known_as: "c", country_name: None };
    assert!(rule_applies(&rule, &known("C", "c", None)));
    assert!(rule_applies(&rule, &known("C", "c", Some("X"))));
    assert!(!rule_applies(&rule, &known("C", "d", None)));
    assert!(!rule_applies(&rule, &known("D", "c", None)));
    let twice = vec![known("C", "c", None), known("x", "y", None), known("C", "c", None)];
    assert_eq!(find_injections(&vec![rule, rule], &twice), vec![(0, 0), (0, 2), (1, 0), (1, 2)]);
}

#[test]
fn statements_run_in_order() {
    let plan = vec![
        Step { sql: "first", report: None },
        Step { sql: "second", report: Some("rows touched") },
    ];
    assert_eq!(first(&plan), Next::Run(0));
    assert_eq!(first(&Vec::new()), Next::Finished);
    let (next, line) = after(&plan, 0, Ok(7)).unwrap();
    assert_eq!(next, Next::Run(1));
    assert_eq!(line, None);
    let (next, line) = after(&plan, 1, Ok(1234)).unwrap();
    assert_eq!(next, Next::Finished);
    assert_eq!(line.as_deref(), Some("1234 rows touched"));
    match after(&plan, 1, Err("relation missing".to_string())) {
        Err(AppError::SqlxError(detail, sql)) => {
            assert_eq!(detail, "relation missing");
            assert_eq!(sql, "second");
        }
        other => panic!("unexpected: {:?}", other),
    }
}

#[test]
fn plans_of_the_domains() {
    let texts = |plan: Vec<Step>| -> Vec<(String, Option<String>)> {
        plan.iter().map(|s| (s.sql.to_string(), s.report.map(String::from))).collect()
    };
    let p = texts(imp_geo::admins::create_admins_tables());
    assert_eq!(p.len(), 2);
    assert!(p[0].0.contains("geo.adm1s") && p[1].0.contains("geo.adm2s"));
    let p = texts(imp_geo::lang_codes::create_lang_code_tables());
    assert_eq!(p.len(), 3);
    assert!(p[0].0.contains("create schema if not exists src"));
    assert!(p[1].0.contains("src.lang_src_codes") && p[2].0.contains("geo.lang_codes"));
    let p = texts(imp_geo::countries::adjust_names());
    assert_eq!(p.len(), 3);
    assert_eq!(p[0].1.as_deref(), Some("missing country name records added"));
    assert_eq!(p[1].1, None);
    let p = texts(imp_geo::cities::delete_dup_city_names());
    assert_eq!(p.len(), 2);
    assert!(p[0].0.contains("temp_dup_city_names"));
    assert_eq!(
        p[1].1.as_deref(),
        Some("duplicate non-default city name records deleted (same country, name)")
    );
    assert_eq!(texts(imp_geo::alt_names::transfer_data()).len(), 1);
    assert_eq!(texts(imp_geo::alt_names::create_collecting_table()).len(), 1);
    assert_eq!(texts(imp_geo::alt_names::create_alt_name_table()).len(), 1);
    assert_eq!(texts(imp_geo::cities::create_city_tables()).len(), 2);
    assert_eq!(texts(imp_geo::cities::create_city_names()).len(), 1);
    assert_eq!(texts(imp_geo::cities::transfer_names_to_mdr()).len(), 1);
    assert_eq!(texts(imp_geo::countries::create_country_tables()).len(), 1);
    assert_eq!(texts(imp_geo::countries::transfer_countries()).len(), 1);
    assert_eq!(texts(imp_geo::countries::create_country_names()).len(), 1);
    assert_eq!(texts(imp_geo::lang_codes::transfer_data()).len(), 1);
    assert_eq!(texts(imp_geo::lang_codes::delete_src_table()).len(), 1);
    assert_eq!(texts(imp_geo::scopes::create_scope_tables()).len(), 1);
    assert_eq!(texts(imp_geo::scopes::after_import()).len(), 1);
    assert_eq!(texts(imp_geo::aliases::make_mdr_related_changes_1()).len(), 1);
}

#[test]
fn batches_are_stored_by_position() {
    let columns = vec![
        Target { name: "id", sql_type: "int" },
        Target { name: "code", sql_type: "text" },
        Target { name: "name", sql_type: "text" },
    ];
    assert_eq!(
        insert_statement("geo.adm1s", &columns),
        "INSERT INTO geo.adm1s (id, code, name) SELECT * FROM UNNEST($1::int[], $2::text[], $3::text[]);"
    );
    assert_eq!(insert_statement("t", &Vec::new()), "INSERT INTO t () SELECT * FROM UNNEST();");
    assert_eq!(
        imp_geo::admins::store_statement("adm2s"),
        "INSERT INTO geo.adm2s (id, code, name) SELECT * FROM UNNEST($1::int[], $2::text[], $3::text[]);"
    );
    assert_eq!(
        imp_geo::alt_names::store_statement(),
        "INSERT INTO src.alt_src_names (geo_id, alt_name, lang, historic) SELECT * FROM UNNEST($1::int[], $2::text[], $3::text[], $4::text[]);"
    );
    assert_eq!(
        imp_geo::cities::store_statement(),
        "INSERT INTO geo.cities (id, name, disamb_type, disamb_code, country_code, lat, lng) SELECT * FROM UNNEST($1::int[], $2::text[], $3::text[], $4::text[], $5::text[], $6::float[], $7::float[]);"
    );
    assert_eq!(
        imp_geo::countries::store_statement(),
        "INSERT INTO geo.countries (id, rank, iso_code, country_name, continent, tld, languages, capital) SELECT * FROM UNNEST($1::int[], $2::int[], $3::text[], $4::text[], $5::text[], $6::text[], $7::text[], $8::text[]);"
    );
    assert_eq!(
        imp_geo::lang_codes::store_statement(),
        "INSERT INTO src.lang_src_codes (c3, c2, c1, name) SELECT * FROM UNNEST($1::text[], $2::text[], $3::text[], $4::text[]);"
    );
    assert_eq!(
        imp_geo::scopes::store_statement(),
        "INSERT INTO src.regions (id, feature_code, name, members) SELECT * FROM UNNEST($1::int[], $2::text[], $3::text[], $4::text[]);"
    );
    let many: Vec<Target> = (0..12).map(|_| Target { name: "c", sql_type: "int" }).collect();
    assert!(insert_statement("t", &many).ends_with("$10::int[], $11::int[], $12::int[]);"));
}

#[test]
fn header_between_stars() {
    assert_eq!(get_header_line(20, "SQLX ERROR"), "**** SQLX ERROR ****");
    assert_eq!(get_header_line(20, "IO ERROR"), "***** IO ERROR *****");
    assert_eq!(get_header_line(20, "ODD"), "******* ODD  *******");
    assert_eq!(get_header_line(5, "HEADER"), " HEADER ");
    assert_eq!(get_header_line(7, "ODD"), "* ODD  *");
    let line = get_header_line(100, "CONFIGURATION ERROR");
    assert_eq!(line.len(), 100);
    assert!(line.starts_with("*************************************** CONFIGURATION ERROR  *"));
    assert_eq!(star_line(3), "***");
    assert_eq!(star_line(0), "");
}

#[test]
fn messages_cut_into_sentences() {
    assert_eq!(sentences_of("one. two .three"), vec!["one.", "two.", "three."]);
    assert_eq!(sentences_of("one."), vec!["one.", "."]);
    assert_eq!(sentences_of(""), vec!["."]);
    assert_eq!(sentences_of("no stop"), vec!["no stop."]);
    assert_eq!(sentences_of("a..b"), vec!["a.", ".", "b."]);
    for msg in ["one. two .three", "x.", "", " . . "] {
        let expected: Vec<String> = msg.split(".").map(|l| format!("{}.", l.trim())).collect();
        assert_eq!(sentences_of(msg), expected);
    }
}

#[test]
fn errors_are_reported() {
    let stars = "*".repeat(100);
    let lines = report_error(&AppError::ConfigurationError("what".into(), "do this".into()));
    assert_eq!(lines.len(), 6);
    assert_eq!(lines[0], "");
    assert_eq!(lines[1], get_header_line(100, "CONFIGURATION ERROR"));
    assert_eq!(lines[2], "what");
    assert_eq!(lines[3], "do this");
    assert_eq!(lines[4], stars);
    assert_eq!(lines[5], "");
    let lines = report_error(&AppError::SqlxError("bad thing. near x".into(), "select 1".into()));
    assert_eq!(
        lines,
        vec![
            "".to_string(),
            get_header_line(100, "SQLX ERROR"),
            "bad thing.".to_string(),
            "near x.".to_string(),
            "Statement was: select 1".to_string(),
            stars.clone(),
            "".to_string(),
        ]
    );
    let lines = report_error(&AppError::MalformedRecord(12, Fault::NotNumber(3)));
    assert_eq!(lines[1], get_header_line(100, "MALFORMED RECORD"));
    assert_eq!(lines[2], "A line of the source file is malformed");
    assert_eq!(lines[3], "Record 12: column 3 does not hold a number");
    let lines = report_error(&AppError::MalformedRecord(0, Fault::Missing(18)));
    assert_eq!(lines[3], "Record 0: column 18 is missing");
    let lines = report_error(&AppError::UnreadableSource(4, "uneven".into()));
    assert_eq!(lines[1], get_header_line(100, "SOURCE FILE PROBLEM"));
    assert_eq!(lines[2], "The source file could not be read beyond record 4");
    assert_eq!(lines[3], "uneven");
    let lines = report_error(&AppError::MissingProgramParameter("data_folder".into()));
    assert_eq!(lines[1], get_header_line(100, "MISSING PARAMETER"));
    assert_eq!(lines[3], "Parameter is: data_folder");
    let lines = report_error(&AppError::MissingDBParameters);
    assert_eq!(lines[1], get_header_line(100, "DB PARAMETERS ERROR"));
    assert_eq!(lines[2], "Unable to obtain database parameters.");
    let lines = report_error(&AppError::IoReadErrorWithPath("denied".into(), "/x/y".into()));
    assert_eq!(lines[1], get_header_line(100, "FILE READING PROBLEM"));
    assert_eq!((lines[2].as_str(), lines[3].as_str()), ("denied", "Path was: /x/y"));
    let lines = report_error(&AppError::IoWriteErrorWithPath("denied".into(), "/x/y".into()));
    assert_eq!(lines[1], get_header_line(100, "FILE WRITING PROBLEM"));
    let lines = report_error(&AppError::LogSetupError("a".into(), "b".into()));
    assert_eq!(lines[1], get_header_line(100, "LOG SETUP ERROR"));
    let lines = report_error(&AppError::ClapError("bad flag".into()));
    assert_eq!(lines[1], get_header_line(100, "CLAP ERROR"));
    assert_eq!(lines[3], "bad flag");
    let lines = report_error(&AppError::SerdeError("bad json".into()));
    assert_eq!(lines[1], get_header_line(100, "SERDE JSON ERROR"));
    let lines = report_error(&AppError::DBPoolError("refused".into(), "geo".into()));
    assert_eq!(lines[1], get_header_line(100, "DB POOL ERROR"));
    assert_eq!(lines[2], "An error occurred while creating the DB pool: refused");
    assert_eq!(lines[3], "Database requested was: geo");
    let lines = report_error(&AppError::IoError("gone. really".into()));
    assert_eq!(lines[1], get_header_line(100, "IO ERROR"));
    assert_eq!((lines[2].as_str(), lines[3].as_str()), ("gone.", "really."));
}

fn alt(id: i64, name: &str, lang: &str, historic: &str) -> AltRec {
    AltRec { geo_id: id, name: name.into(), lang: lang.into(), historic: historic.into() }
}

fn languages() -> Vec<Language> {
    vec![
        Language { code: "en".into(), name: "English".into() },
        Language { code: "fr".into(), name: "French".into() },
        Language { code: "de".into(), name: "German".into() },
        Language { code: "en".into(), name: "Other English".into() },
    ]
}

fn shown(names: &[AltName]) -> Vec<(i64, String, Option<String>, String)> {
    names
        .iter()
        .map(|n| (n.id, n.alt_name.clone(), n.langs.clone(), n.historic.clone()))
        .collect()
}

#[test]
fn a_chunk_is_aggregated() {
    let langs = languages();
    assert_eq!(language_of(&langs, "en").as_deref(), Some("English"));
    assert_eq!(language_of(&langs, "xx"), None);
    let rows = vec![
        alt(1, "London", "en", ""),
        alt(1, "Londres", "fr", ""),
        alt(1, "London", "de", ""),
        alt(1, "London", "none", ""),
        alt(1, "London", "en", "Historic"),
        alt(2, "London", "xx", ""),
        alt(1, "London", "fr", ""),
    ];
    let names = aggregate(&rows, &langs);
    assert_eq!(
        shown(&names),
        vec![
            (1, "London".to_string(), Some("English, German, French".to_string()), "".to_string()),
            (1, "Londres".to_string(), Some("French".to_string()), "".to_string()),
            (1, "London".to_string(), Some("English".to_string()), "Historic".to_string()),
            (2, "London".to_string(), None, "".to_string()),
        ]
    );
    assert!(aggregate(&Vec::new(), &langs).is_empty());
}

#[test]
fn passes_over_chunks_give_what_one_pass_gives() {
    let langs = languages();
    let mut records: Vec<Vec<String>> = Vec::new();
    let mut rows: Vec<AltRec> = Vec::new();
    for id in 1..=7 {
        for (name, lang) in [("a", "en"), ("b", "fr"), ("a", "de")] {
            let line: Vec<String> = ["9", id.to_string().as_str(), lang, name, "", "", "", "", "", ""]
                .iter()
                .map(|s| s.to_string())
                .collect();
            records.push(line);
            rows.push(alt(id, name, lang, ""));
        }
    }
    let load = chunk_records(&records, false, 3).unwrap();
    assert_eq!(load.chunks.len(), 3);
    let mut together: Vec<(i64, String, Option<String>, String)> = Vec::new();
    for chunk in load.chunks.iter() {
        let chunk_rows: Vec<AltRec> = (0..chunk.geo_ids.len())
            .map(|i| {
                alt(chunk.geo_ids[i], &chunk.names[i], &chunk.langs[i], &chunk.historics[i])
            })
            .collect();
        together.extend(shown(&aggregate(&chunk_rows, &langs)));
    }
    assert_eq!(together, shown(&aggregate(&rows, &langs)));
    assert_eq!(together.len(), 14);
    assert_eq!(together[0], (1, "a".to_string(), Some("English, German".to_string()), "".to_string()));
}
