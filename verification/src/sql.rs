//! The text of the statements that are run against the store.
use vstd::prelude::*;

verus! {

/// Makes sure that the three schemas are there.
pub const CREATE_SCHEMAS: &'static str = "SET client_min_messages TO WARNING; \
create schema if not exists src; \
create schema if not exists geo; \
create schema if not exists mdr;";

/// Drops and creates the table of first-level administrative areas.
pub const CREATE_ADM1S: &'static str = "drop table if exists geo.adm1s; \
create table geo.adm1s (id int, code varchar, name varchar);";

/// Drops and creates the table of second-level administrative areas.
pub const CREATE_ADM2S: &'static str = "drop table if exists geo.adm2s; \
create table geo.adm2s (id int, code varchar, name varchar);";

/// Drops and creates the table of aggregated alternate names.
pub const CREATE_ALT_NAMES: &'static str = "drop table if exists geo.alt_names; \
create table geo.alt_names (id int, alt_name varchar, langs varchar, historic varchar); \
create index alt_names_idx on geo.alt_names(id);";

/// Drops and creates the staging table that holds one chunk of alternate
/// names.
pub const CREATE_ALT_STAGING: &'static str = "drop table if exists src.alt_src_names; \
create table src.alt_src_names (geo_id int, alt_name varchar, lang varchar, historic varchar);";

/// Aggregates the staged chunk into the table of alternate names: one row
/// for each feature, name and historic note, with the names of the
/// two-letter languages of the name, in the order of feature and name.
pub const MERGE_ALT_NAMES: &'static str = "insert into geo.alt_names (id, alt_name, langs, historic) \
select geo_id, alt_name, string_agg(c.name, ', '), historic \
from src.alt_src_names n \
left join (select * from geo.lang_codes where code_type = '639-1') c on n.lang = c.code \
group by geo_id, alt_name, historic \
order by geo_id, alt_name";

/// Drops and creates the table of places.
pub const CREATE_CITIES: &'static str = "drop table if exists geo.cities; \
create table geo.cities (id int primary key, name varchar, disamb_type varchar, \
disamb_id int, disamb_code varchar, disamb_name varchar, country_id int, \
country_code varchar, country_name varchar, lat float, lng float);";

/// Drops and creates the table of the names of places.
pub const CREATE_CITY_NAMES: &'static str = "drop table if exists geo.city_names; \
create table geo.city_names (id int, city_name varchar, disamb_id int, disamb_name varchar, \
country_id int, country_name varchar, alt_name varchar, langlist varchar); \
create index city_name_alt_name on geo.city_names(alt_name); \
create index city_name on geo.city_names(id);";

/// Gives every place a row for each of its alternate names.
pub const JOIN_CITY_NAMES: &'static str = "insert into geo.city_names (id, city_name, disamb_id, \
disamb_name, country_id, country_name, alt_name, langlist) \
select c.id, c.name, c.disamb_id, c.disamb_name, c.country_id, c.country_name, \
a.alt_name, a.langs \
from geo.cities c inner join geo.alt_names a on c.id = a.id;";

/// Gathers the names that occur more than once within one country.
pub const FIND_DUP_CITY_NAMES: &'static str = "SET client_min_messages TO WARNING; \
drop table if exists geo.temp_dup_city_names; \
create table geo.temp_dup_city_names as \
select country_name, alt_name, count(id) from geo.city_names \
group by country_name, alt_name having count(id) > 1 \
order by count(id) desc";

/// Deletes such a name where it is not the canonical name of its place.
pub const DELETE_DUP_CITY_NAMES: &'static str = "delete from geo.city_names n \
using geo.temp_dup_city_names d \
where d.country_name = n.country_name and d.alt_name = n.alt_name \
and d.alt_name <> n.city_name; \
SET client_min_messages TO WARNING; \
drop table if exists geo.temp_dup_city_names;";

/// Drops, creates and fills the table of names that consumers read, with
/// every name in lower case.
pub const TRANSFER_CITY_NAMES: &'static str = "SET client_min_messages TO WARNING; \
drop table if exists mdr.city_names; \
create table mdr.city_names (id int, alt_name varchar, city_name varchar, disamb_id int, \
disamb_name varchar, country_id int, country_name varchar, source varchar); \
create index city_name_id on mdr.city_names(id); \
create index city_name_alt_name on mdr.city_names(alt_name); \
create index city_name_name on mdr.city_names(city_name); \
insert into mdr.city_names (id, alt_name, city_name, disamb_id, disamb_name, country_id, \
country_name, source) \
select id, lower(alt_name), city_name, disamb_id, disamb_name, country_id, country_name, \
'geonames' from geo.city_names";

/// Deletes two names that lead to the wrong place.
pub const DELETE_MISLEADING_NAMES: &'static str = "delete from mdr.city_names \
where alt_name = 'Chicago' and disamb_name = 'Ohio'; \
delete from mdr.city_names where alt_name = 'New York' and disamb_name = 'Nebraska';";

/// Drops and creates the tables of countries and of their names.
pub const CREATE_COUNTRIES: &'static str = "drop table if exists geo.countries; \
create table geo.countries (id int primary key, rank int, iso_code varchar, \
country_name varchar, continent varchar, tld varchar, languages varchar, capital varchar); \
create index geo_country_iso_code on geo.countries(iso_code); \
drop table if exists src.countries; \
create table src.countries (id int primary key, rank int, iso_code varchar, \
country_name varchar, continent varchar, tld varchar, languages varchar, capital varchar); \
create index src_country_iso_code on src.countries(iso_code); \
drop table if exists src.country_names; \
create table src.country_names (id int PRIMARY KEY GENERATED ALWAYS AS IDENTITY \
(START WITH 10001 INCREMENT BY 1), country_id int, country_name varchar, alt_name varchar, \
langlist varchar); \
create index country_name_country_id on src.country_names(country_id);";

/// Copies the countries in the order of their names.
pub const TRANSFER_COUNTRIES: &'static str = "insert into src.countries (id, rank, iso_code, \
country_name, continent, tld, capital) \
select id, rank, iso_code, country_name, continent, tld, capital \
from geo.countries order by country_name;";

/// Gives every country a row for each of its alternate names.
pub const JOIN_COUNTRY_NAMES: &'static str = "insert into src.country_names (country_id, country_name, \
alt_name, langlist) \
select g.id, g.country_name, a.alt_name, a.langs \
from src.countries g inner join geo.alt_names a on g.id = a.id;";

/// Gives every country that lacks it a row with its own name as a name.
pub const ADD_MISSING_COUNTRY_NAMES: &'static str = "insert into src.country_names (country_id, \
country_name, alt_name, langlist) \
select c.id, c.country_name, c.country_name, '' from src.countries c \
left join (select cn.country_name from src.country_names cn \
where country_name = alt_name order by country_name) m \
on c.country_name = m.country_name where m.country_name is null";

/// Deletes three countries that for most purposes are none.
pub const DELETE_OBSOLETE_COUNTRIES: &'static str = "delete from src.countries \
where country_name in ('Serbia and Montenegro', 'Macao', 'Hong Kong')";

/// Deletes the names of those three countries.
pub const DELETE_OBSOLETE_COUNTRY_NAMES: &'static str = "delete from src.country_names \
where country_name in ('Serbia and Montenegro', 'Macao', 'Hong Kong')";

/// Drops and creates the staging table of language codes.
pub const CREATE_LANG_SRC_CODES: &'static str = "drop table if exists src.lang_src_codes; \
create table src.lang_src_codes (c3 varchar, c2 varchar, c1 varchar, name varchar);";

/// Drops and creates the table of language codes.
pub const CREATE_LANG_CODES: &'static str = "drop table if exists geo.lang_codes; \
create table geo.lang_codes (code varchar primary key, name varchar, code_type varchar);";

/// Gives every language one row for each kind of code that it has.
pub const TRANSFER_LANG_CODES: &'static str = "insert into geo.lang_codes (code, name, code_type) \
select * from \
(select c2 as code, name, '639-2' as code_type from src.lang_src_codes \
where c3 = '' and c2 not in ('frr', 'srn', 'syc', 'rup')) \
union \
(select c3 as code, name, '639-3' as code_type from src.lang_src_codes where c3 <> '') \
union \
(select c1 as code, name, '639-1' as code_type from src.lang_src_codes where c1 <> '') \
order by code";

/// Drops the staging table of language codes.
pub const DROP_LANG_SRC_CODES: &'static str = "drop table if exists src.lang_src_codes;";

/// Drops and creates the table of regions and continents.
pub const CREATE_REGIONS: &'static str = "drop table if exists src.regions; \
create table src.regions (id int, feature_code varchar, name varchar, members varchar);";

/// Lets the store report notices again.
pub const RESTORE_NOTICES: &'static str = "SET client_min_messages TO NOTICE;";

} // verus!
