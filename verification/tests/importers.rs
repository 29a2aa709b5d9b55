use imp_geo::admins::{import_admins_data, map_admin_line, table_for, AdminRec, AdminVecs};
use imp_geo::alt_names::{
    chunk_records, import_alt_name_data, map_alt_line, AltRec, AltRecVecs, ChunkDriver,
};
use imp_geo::cities::{disambiguate, map_city_line, CityVecs};
use imp_geo::countries::{map_country_line, rank_for, CountryVecs};
use imp_geo::err::AppError;
use imp_geo::lang_codes::{import_lang_code_data, map_lang_code_line, LangCodeVecs};
use imp_geo::line::Fault;
use imp_geo::load::load_records;
use imp_geo::scopes::{import_scope_data, map_scope_line, ScopeVecs};

fn fields(items: &[&str]) -> Vec<String> {
    items.iter().map(|s| s.to_string()).collect()
}

fn alt_line(id: i64, lang: &str, name: &str) -> Vec<String> {
    let id = id.to_string();
    fields(&["1", id.as_str(), lang, name, "", "", "", "", "", ""])
}

fn feature_line(id: &str, name: &str, code: &str, country: &str, a1: &str, a2: &str) -> Vec<String> {
    fields(&[
        id, name, name, "", "51.5", "-0.1", "P", code, country, "AA,BB", a1, a2, "", "", "1000",
        "", "12", "Europe/London", "2020-01-01",
    ])
}

#[test]
fn admin1_file_of_three_lines_gives_three_rows() {
    let data = "US.CA\tCalifornia\tCalifornia\t5332921\n\
                US.NY\tNew York\tNew York\t5128638\n\
                US.TX\tTexas\tTexas\t4736286\n";
    let load = import_admins_data(data.as_bytes()).unwrap();
    assert_eq!(table_for("admin1CodesASCII.txt"), "adm1s");
    assert_eq!(load.count, 3);
    assert_eq!(load.batches.len(), 1);
    let batch = &load.batches[0];
    assert_eq!(batch.ids, vec![5332921, 5128638, 4736286]);
    assert_eq!(batch.codes, vec!["US.CA", "US.NY", "US.TX"]);
    assert_eq!(batch.names, vec!["California", "New York", "Texas"]);
}

#[test]
fn admin_table_follows_the_file_name() {
    assert_eq!(table_for("admin1CodesASCII.txt"), "adm1s");
    assert_eq!(table_for("admin2Codes.txt"), "adm2s");
    assert_eq!(table_for("admin"), "adm2s");
    assert_eq!(table_for(""), "adm2s");
}

#[test]
fn admin_line_is_normalized() {
    let rec = map_admin_line(&fields(&["GB.ENG", "  St. John's ", "x", "42"])).unwrap();
    assert_eq!(rec.id, 42);
    assert_eq!(rec.code, "GB.ENG");
    assert_eq!(rec.name, "St John\u{2019}s");
}

#[test]
fn admin_line_faults() {
    assert_eq!(map_admin_line(&fields(&["a", "b", "c"])).unwrap_err(), Fault::Missing(3));
    assert_eq!(map_admin_line(&fields(&[])).unwrap_err(), Fault::Missing(0));
    assert_eq!(map_admin_line(&fields(&["a", "b", "c", "x1"])).unwrap_err(), Fault::NotNumber(3));
    assert_eq!(map_admin_line(&fields(&["a", "b", "c", ""])).unwrap_err(), Fault::NotNumber(3));
    assert!(map_admin_line(&fields(&["a", "b", "c", "7", "extra"])).is_ok());
}

#[test]
fn malformed_record_stops_the_load() {
    let data = "US.CA\tCalifornia\tCalifornia\t5332921\nUS.NY\tNew York\tNew York\tabc\n";
    match import_admins_data(data.as_bytes()) {
        Err(AppError::MalformedRecord(1, Fault::NotNumber(3))) => {}
        other => panic!("unexpected: {:?}", other.map(|l| l.count)),
    }
}

#[test]
fn uneven_source_is_unreadable() {
    let data = "a\tb\tc\t1\na\tb\tc\t2\textra\n";
    match import_admins_data(data.as_bytes()) {
        Err(AppError::UnreadableSource(1, _)) => {}
        other => panic!("unexpected: {:?}", other.map(|l| l.count)),
    }
}

#[test]
fn full_batches_are_handed_out() {
    let records: Vec<Vec<String>> =
        (0..7).map(|i| fields(&["c", "n", "n", i.to_string().as_str()])).collect();
    let load = load_records(&imp_geo::admins::Admins, &records, 3).unwrap();
    assert_eq!(load.count, 7);
    let sizes: Vec<usize> = load.batches.iter().map(|b| b.ids.len()).collect();
    assert_eq!(sizes, vec![3, 3, 1]);
    let stored: usize = sizes.iter().sum();
    assert_eq!(stored, load.count);
    let ids: Vec<i64> = load.batches.iter().flat_map(|b| b.ids.clone()).collect();
    assert_eq!(ids, vec![0, 1, 2, 3, 4, 5, 6]);

    let exact = load_records(&imp_geo::admins::Admins, &records[..6].to_vec(), 3).unwrap();
    let sizes: Vec<usize> = exact.batches.iter().map(|b| b.ids.len()).collect();
    assert_eq!(sizes, vec![3, 3, 0]);

    let none = load_records(&imp_geo::admins::Admins, &Vec::new(), 3).unwrap();
    assert_eq!(none.count, 0);
    assert_eq!(none.batches.len(), 1);
    assert_eq!(none.batches[0].ids.len(), 0);
}

#[test]
fn chunk_cut_after_2500_identifiers() {
    let records: Vec<Vec<String>> = (1..=2600).map(|i| alt_line(i, "en", "Name")).collect();
    let load = chunk_records(&records, false, 2500).unwrap();
    assert_eq!(load.chunks.len(), 2);
    assert_eq!(load.count, 2600);
    assert_eq!(load.chunks[0].geo_ids.len(), 2499);
    assert_eq!(load.chunks[1].geo_ids.len(), 101);
    assert_eq!(load.chunks[1].geo_ids[0], 2500);
}

#[test]
fn chunk_never_parts_one_identifier() {
    let mut records: Vec<Vec<String>> = Vec::new();
    for id in 1..=5 {
        for n in 0..3 {
            records.push(alt_line(id, "en", format!("n{}", n).as_str()));
        }
    }
    let load = chunk_records(&records, false, 2).unwrap();
    let chunks: Vec<Vec<i64>> = load.chunks.iter().map(|c| c.geo_ids.clone()).collect();
    assert_eq!(
        chunks,
        vec![
            vec![1, 1, 1],
            vec![2, 2, 2, 3, 3, 3],
            vec![4, 4, 4, 5, 5, 5],
        ]
    );
    for id in 1..=5 {
        let holding = chunks.iter().filter(|c| c.contains(&id)).count();
        assert_eq!(holding, 1);
    }
    let total: usize = chunks.iter().map(|c| c.len()).sum();
    assert_eq!(total, load.count);
}

#[test]
fn chunk_driver_steps() {
    let mut driver = ChunkDriver::new(2, 16);
    let rec = |id: i64| AltRec {
        geo_id: id,
        name: "n".to_string(),
        lang: "none".to_string(),
        historic: String::new(),
    };
    assert!(driver.accept(&rec(7)).is_none());
    assert!(driver.accept(&rec(7)).is_none());
    let closed = driver.accept(&rec(8)).unwrap();
    assert_eq!(closed.geo_ids, vec![7, 7]);
    assert!(driver.accept(&rec(8)).is_none());
    assert!(driver.accept(&rec(9)).is_none());
    let closed = driver.accept(&rec(7)).unwrap();
    assert_eq!(closed.geo_ids, vec![8, 8, 9]);
    assert_eq!(driver.cuts, 2);
    let (last, count) = driver.finish();
    assert_eq!(last.geo_ids, vec![7]);
    assert_eq!(count, 6);
}

#[test]
fn excluded_language_reaches_no_batch() {
    let line = alt_line(5, "abbr", "NYC");
    assert!(map_alt_line(&line, false).unwrap().is_none());
    let load = chunk_records(&vec![line], false, 2500).unwrap();
    assert_eq!(load.count, 0);
    assert_eq!(load.chunks.len(), 1);
    assert_eq!(load.chunks[0].geo_ids.len(), 0);
    for code in ["link", "wkdt", "post", "unlc", "faac", "icao", "iata", "abbr"] {
        assert!(map_alt_line(&alt_line(5, code, "x"), false).unwrap().is_none());
    }
    assert!(map_alt_line(&alt_line(5, "en", "x"), false).unwrap().is_some());
    assert!(map_alt_line(&alt_line(5, "", "x"), false).unwrap().is_some());
}

#[test]
fn alt_name_fields() {
    let rec = map_alt_line(&alt_line(5, "", " O'Hare Intl. "), true).unwrap().unwrap();
    assert_eq!(rec.geo_id, 5);
    assert_eq!(rec.lang, "none");
    assert_eq!(rec.name, "O\u{2019}Hare Intl");
    assert_eq!(rec.historic, "");
    let rec = map_alt_line(&alt_line(5, "fr", "Londres"), true).unwrap().unwrap();
    assert_eq!(rec.lang, "fr");
}

#[test]
fn alt_name_historic_note() {
    let line = |h: &str, from: &str, to: &str| {
        fields(&["1", "2", "en", "Name", "", "", "", h, from, to])
    };
    let note = |h: &str, from: &str, to: &str| {
        map_alt_line(&line(h, from, to), false).unwrap().unwrap().historic
    };
    assert_eq!(note("1", "1950", "1999"), "Historic, from 1950, to 1999");
    assert_eq!(note("1", "1950", ""), "Historic, from 1950");
    assert_eq!(note("1", "", "1999"), "Historic, to 1999");
    assert_eq!(note("1", "", ""), "Historic");
    assert_eq!(note("", "1950", "1999"), "");
    assert_eq!(note("0", "1950", "1999"), "");
    assert_eq!(note("2", "1950", "1999"), "");
    assert_eq!(
        map_alt_line(&line("x", "", ""), false).unwrap_err(),
        Fault::NotNumber(7)
    );
    assert_eq!(
        map_alt_line(&line("-1", "", ""), false).unwrap_err(),
        Fault::NotNumber(7)
    );
}

#[test]
fn latin_only_leaves_out_names_from_zz_on() {
    let kept = |name: &str, latin: bool| map_alt_line(&alt_line(1, "en", name), latin).unwrap().is_some();
    assert!(kept("London", true));
    assert!(kept("ZY", true));
    assert!(kept("Z", true));
    assert!(kept("", true));
    assert!(!kept("ZZ", true));
    assert!(!kept("ZZa", true));
    assert!(!kept("Za", true));
    assert!(!kept("abc", true));
    assert!(!kept("\u{41b}\u{43e}\u{43d}\u{434}\u{43e}\u{43d}", true));
    assert!(kept("\u{41b}\u{43e}\u{43d}\u{434}\u{43e}\u{43d}", false));
    assert!(kept("ZZ", false));
}

#[test]
fn alt_name_source_is_chunked() {
    let mut data = String::new();
    for id in 1..=3 {
        data.push_str(&format!("{}\t{}\ten\tName {}\t\t\t\t\t\t\n", id * 10, id, id));
    }
    let load = import_alt_name_data(data.as_bytes(), true).unwrap();
    assert_eq!(load.count, 3);
    assert_eq!(load.chunks.len(), 1);
    assert_eq!(load.chunks[0].names, vec!["Name 1", "Name 2", "Name 3"]);
    assert_eq!(load.chunks[0].langs, vec!["en", "en", "en"]);
    assert_eq!(load.chunks[0].historics, vec!["", "", ""]);
}

#[test]
fn country_rank_follows_population() {
    assert_eq!(rank_for(50000), 2);
    assert_eq!(rank_for(5000000), 1);
    assert_eq!(rank_for(319999), 2);
    assert_eq!(rank_for(320000), 1);
    assert_eq!(rank_for(0), 2);
    assert_eq!(rank_for(-1), 2);
}

fn country_line(population: &str, capital: &str, tld: &str) -> Vec<String> {
    fields(&[
        "AD", "AND", "020", "AN", " Cote d'Ivoire. ", capital, "468.0", population, "EU", tld,
        "EUR", "Euro", "376", "AD###", "^(?:AD)*(\\d{3})$", "ca", "3041565", "ES,FR", "",
    ])
}

#[test]
fn country_line_is_mapped() {
    let rec = map_country_line(&country_line("50000", "St. George's", ".ad")).unwrap();
    assert_eq!(rec.id, 3041565);
    assert_eq!(rec.rank, 2);
    assert_eq!(rec.iso_code, "AD");
    assert_eq!(rec.country_name, "Cote d\u{2019}Ivoire");
    assert_eq!(rec.continent, "EU");
    assert_eq!(rec.tld, ".ad");
    assert_eq!(rec.languages, "ca");
    assert_eq!(rec.capital, "St George\u{2019}s");
    let rec = map_country_line(&country_line("5000000", "", "")).unwrap();
    assert_eq!(rec.rank, 1);
    assert_eq!(rec.capital, "");
    assert_eq!(rec.tld, "");
    assert_eq!(
        map_country_line(&country_line("many", "", "")).unwrap_err(),
        Fault::NotNumber(7)
    );
    let mut short = country_line("1", "", "");
    short.truncate(16);
    assert_eq!(map_country_line(&short).unwrap_err(), Fault::Missing(16));
    let mut bad_code = country_line("1", "", "");
    bad_code[2] = "x".to_string();
    assert_eq!(map_country_line(&bad_code).unwrap_err(), Fault::NotNumber(2));
    let mut bad_area = country_line("1", "", "");
    bad_area[6] = "".to_string();
    assert_eq!(map_country_line(&bad_area).unwrap_err(), Fault::NotNumber(6));
    bad_area[6] = "4.6e2".to_string();
    assert!(map_country_line(&bad_area).is_ok());
}

#[test]
fn city_disambiguation() {
    let some = |s: &str| Some(s.to_string());
    let d = disambiguate(&some("US"), &some("CA"), &some("037"));
    assert_eq!((d.disamb_type.as_str(), d.disamb_code.as_str(), d.country_code.as_str()), ("admin1", "US.CA", "US"));
    let d = disambiguate(&some("US"), &None, &some("037"));
    assert_eq!((d.disamb_type.as_str(), d.disamb_code.as_str(), d.country_code.as_str()), ("admin1", "none", "US"));
    let d = disambiguate(&some("GB"), &some("ENG"), &some("GLA"));
    assert_eq!((d.disamb_type.as_str(), d.disamb_code.as_str(), d.country_code.as_str()), ("admin2", "GB.ENG.GLA", "GB"));
    let d = disambiguate(&some("FR"), &some("11"), &None);
    assert_eq!((d.disamb_type.as_str(), d.disamb_code.as_str(), d.country_code.as_str()), ("admin2", "none", "FR"));
    let d = disambiguate(&some("FR"), &None, &some("75"));
    assert_eq!((d.disamb_type.as_str(), d.disamb_code.as_str(), d.country_code.as_str()), ("admin2", "none", "FR"));
    let d = disambiguate(&None, &some("11"), &some("75"));
    assert_eq!((d.disamb_type.as_str(), d.disamb_code.as_str(), d.country_code.as_str()), ("none", "none", "none"));
}

#[test]
fn city_line_is_mapped() {
    let rec = map_city_line(&feature_line("2643743", " King's Lynn ", "PPL", "GB", "ENG", "I9")).unwrap();
    assert_eq!(rec.id, 2643743);
    assert_eq!(rec.name, "King\u{2019}s Lynn");
    assert_eq!(rec.disamb_type, "admin2");
    assert_eq!(rec.disamb_code, "GB.ENG.I9");
    assert_eq!(rec.country_code, "GB");
    assert_eq!(rec.lat.as_deref(), Some("51.5"));
    assert_eq!(rec.lng.as_deref(), Some("-0.1"));
    assert_eq!(rec.population, Some(1000));
    let rec = map_city_line(&feature_line("1", "Nowhere", "PPL", "", "", "")).unwrap();
    assert_eq!(rec.country_code, "none");
    assert_eq!(rec.disamb_code, "none");
    assert_eq!(rec.disamb_type, "none");
    assert_eq!(
        map_city_line(&feature_line("one", "x", "PPL", "", "", "")).unwrap_err(),
        Fault::NotNumber(0)
    );
    let mut line = feature_line("1", "x", "PPL", "", "", "");
    line.truncate(10);
    assert_eq!(map_city_line(&line).unwrap_err(), Fault::Missing(10));
    let mut line = feature_line("1", "x", "PPL", "", "", "");
    line[5] = "east".to_string();
    assert_eq!(map_city_line(&line).unwrap_err(), Fault::NotNumber(5));
    line[5] = String::new();
    line[4] = String::new();
    let rec = map_city_line(&line).unwrap();
    assert_eq!((rec.lat, rec.lng), (None, None));
    line[14] = "many".to_string();
    assert_eq!(map_city_line(&line).unwrap_err(), Fault::NotNumber(14));
    line[14] = String::new();
    assert_eq!(map_city_line(&line).unwrap().population, None);
}

#[test]
fn scope_filter_keeps_regions_and_continents() {
    let rec = map_scope_line(&feature_line("6255148", "Europe", "CONT", "", "", "")).unwrap().unwrap();
    assert_eq!(rec.id, 6255148);
    assert_eq!(rec.feature_code, "CONT");
    assert_eq!(rec.name, "Europe");
    assert_eq!(rec.members.as_deref(), Some("AA,BB"));
    assert!(map_scope_line(&feature_line("1", "Benelux", "RGN", "", "", "")).unwrap().is_some());
    assert!(map_scope_line(&feature_line("1", "x", "PPL", "", "", "")).unwrap().is_none());
    assert!(map_scope_line(&feature_line("1", "x", "", "", "", "")).unwrap().is_none());
    assert!(map_scope_line(&feature_line("1", "x", "rgn", "", "", "")).unwrap().is_none());
    let data = "1\tEurope\tEurope\t\t\t\tL\tCONT\t\tAD,AL\t\t\t\t\t0\t\t\t\t\n\
                2\tParis\tParis\t\t\t\tP\tPPLC\tFR\t\t11\t75\t\t\t5\t\t\t\t\n";
    let load = import_scope_data(data.as_bytes()).unwrap();
    assert_eq!(load.count, 1);
    assert_eq!(load.batches[0].ids, vec![1]);
    assert_eq!(load.batches[0].members, vec![Some("AD,AL".to_string())]);
}

#[test]
fn lang_code_line_is_mapped() {
    let rec = map_lang_code_line(&fields(&["eng", "eng", "en", " English. "])).unwrap();
    assert_eq!((rec.c3.as_str(), rec.c2.as_str(), rec.c1.as_str()), ("eng", "eng", "en"));
    assert_eq!(rec.name, "English");
    assert_eq!(map_lang_code_line(&fields(&["eng", "eng"])).unwrap_err(), Fault::Missing(2));
    let load = import_lang_code_data("aar\taar\taa\tAfar\nabk\tabk\tab\tAbkhazian\n".as_bytes()).unwrap();
    assert_eq!(load.count, 2);
    assert_eq!(load.batches[0].c1s, vec!["aa", "ab"]);
}

#[test]
fn batches_grow_in_lock_step() {
    let mut admins = AdminVecs::new(4);
    admins.add_data(&AdminRec { id: 1, code: "a".into(), name: "b".into() });
    assert_eq!((admins.ids.len(), admins.codes.len(), admins.names.len()), (1, 1, 1));
    assert_eq!(admins.len(), 1);
    let mut alts = AltRecVecs::new(4);
    assert_eq!(alts.len(), 0);
    alts.add_data(&AltRec { geo_id: 3, name: "n".into(), lang: "l".into(), historic: "h".into() });
    assert_eq!(alts.geo_ids, vec![3]);
    assert_eq!(alts.names, vec!["n"]);
    assert_eq!(alts.langs, vec!["l"]);
    assert_eq!(alts.historics, vec!["h"]);
    assert_eq!(CityVecs::new(1).len(), 0);
    assert_eq!(CountryVecs::new(1).len(), 0);
    assert_eq!(LangCodeVecs::new(1).len(), 0);
    assert_eq!(ScopeVecs::new(1).len(), 0);
}

#[test]
fn batches_are_sized_as_asked() {
    let mut admins = AdminVecs::new(4);
    assert_eq!(admins.capacity, 4);
    admins.add_data(&AdminRec { id: 1, code: "a".into(), name: "b".into() });
    assert_eq!(admins.capacity, 4);
    assert_eq!(AdminVecs::new(0).capacity, 0);
    assert_eq!(AltRecVecs::new(5000).capacity, 5000);
    assert_eq!(CityVecs::new(10000).capacity, 10000);
    assert_eq!(CountryVecs::new(500).capacity, 500);
    assert_eq!(LangCodeVecs::new(2500).capacity, 2500);
    assert_eq!(ScopeVecs::new(7).capacity, 7);
    let records: Vec<Vec<String>> =
        (0..7).map(|i| fields(&["c", "n", "n", i.to_string().as_str()])).collect();
    let load = load_records(&imp_geo::admins::Admins, &records, 3).unwrap();
    for batch in load.batches.iter() {
        assert_eq!(batch.capacity, 3);
    }
    let mut driver = ChunkDriver::new(2, 16);
    assert_eq!(driver.batch.capacity, 16);
    let rec = |id: i64| AltRec {
        geo_id: id,
        name: "n".to_string(),
        lang: "none".to_string(),
        historic: String::new(),
    };
    assert!(driver.accept(&rec(1)).is_none());
    let closed = driver.accept(&rec(2)).unwrap();
    assert_eq!(closed.capacity, 16);
    assert_eq!(driver.batch.capacity, 16);
}
