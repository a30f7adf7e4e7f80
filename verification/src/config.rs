//! The resolved configuration and the three layers it is merged from: the
//! defaults, the configuration file, the command line.

use vstd::prelude::*;

use crate::enums::Event;
use crate::errors::{ConfigErrorKind, HeliocronError};
use crate::errors::Axis;
use crate::parsers::{date_of, invalid_offset, offset_of, parse_date_at, text_of, Offset};
use crate::structs::{
    all_digits, digits_of, fraction_part, is_digit, lemma_value_push, lemma_within, position_of,
    whole_part, Angle, Coordinates, Degrees, Position,
};
use crate::time::{local_now, Timestamp};

verus! {

/// The error with which the `toml` crate refuses the content of a file.
#[verifier::external_type_specification]
#[verifier::external_body]
pub struct ExTomlError(toml::de::Error);

/// What the command line asks the program to do.
#[derive(Debug, Clone, Copy, PartialEq, Eq)]
pub enum Subcommand {
    /// Report the solar events of the day.
    Report {  },
    /// Wait until an event, moved by an offset. Both are kept as they were
    /// read, failures included: a failure comes up when the value is asked
    /// for, not before.
    Wait { offset: Result<Offset, HeliocronError>, event: Result<Event, HeliocronError> },
}

impl Subcommand {
    /// What asking for the offset gives: none for a report, the failure of
    /// its reading where it was malformed.
    pub open spec fn stored_offset(self) -> Result<Option<Offset>, HeliocronError> {
        match self {
            Subcommand::Report {  } => Ok(None),
            Subcommand::Wait { offset: Ok(offset), .. } => Ok(Some(offset)),
            Subcommand::Wait { offset: Err(error), .. } => Err(error),
        }
    }

    /// What asking for the event gives: none for a report, the failure of
    /// its reading where the name was unknown.
    pub open spec fn stored_event(self) -> Result<Option<Event>, HeliocronError> {
        match self {
            Subcommand::Report {  } => Ok(None),
            Subcommand::Wait { event: Ok(event), .. } => Ok(Some(event)),
            Subcommand::Wait { event: Err(error), .. } => Err(error),
        }
    }

    /// The offset to wait by: none for a report, the failure of its reading
    /// where it was malformed.
    pub fn offset(&self) -> (r: Result<Option<Offset>, HeliocronError>)
        ensures
            r == self.stored_offset(),
    {
        match *self {
            Subcommand::Report {  } => Ok(None),
            Subcommand::Wait { offset: Ok(offset), .. } => Ok(Some(offset)),
            Subcommand::Wait { offset: Err(error), .. } => Err(error),
        }
    }

    /// The event to wait for: none for a report, the failure of its reading
    /// where the name was unknown.
    pub fn event(&self) -> (r: Result<Option<Event>, HeliocronError>)
        ensures
            r == self.stored_event(),
    {
        match *self {
            Subcommand::Report {  } => Ok(None),
            Subcommand::Wait { event: Ok(event), .. } => Ok(Some(event)),
            Subcommand::Wait { event: Err(error), .. } => Err(error),
        }
    }
}

/// The date arguments of the command line.
#[derive(Debug, Clone, PartialEq, Eq)]
pub struct DateArgs {
    pub date: Option<String>,
    pub date_format: String,
    pub time_zone: Option<String>,
}

/// The command line, as collected.
#[derive(Debug, Clone, PartialEq, Eq)]
pub struct Cli {
    pub subcommand: Subcommand,
    pub date_args: DateArgs,
    pub latitude: Option<String>,
    pub longitude: Option<String>,
}

/// What the configuration file holds: a latitude and a longitude, each of
/// which may be missing.
#[derive(Debug, Clone, PartialEq, Eq)]
pub struct TomlConfig {
    pub latitude: Option<String>,
    pub longitude: Option<String>,
}

/// The error that an unusable configuration file ends in.
pub open spec fn invalid_file() -> HeliocronError {
    HeliocronError::Config(ConfigErrorKind::InvalidConfigFile)
}

/// The characters of a string that may be missing.
pub open spec fn chars(text: Option<String>) -> Option<Seq<char>> {
    match text {
        Some(text) => Some(text@),
        None => None,
    }
}

impl TomlConfig {
    /// A layer that overrides nothing.
    pub fn new() -> (r: TomlConfig)
        ensures
            r.latitude is None,
            r.longitude is None,
    {
        TomlConfig { latitude: None, longitude: None }
    }

    /// The layer of a file that was read: its content where that could be
    /// taken apart, an error where it could not.
    pub fn from_toml(config: Result<TomlConfig, toml::de::Error>) -> (r: Result<
        TomlConfig,
        HeliocronError,
    >)
        ensures
            match config {
                Ok(layer) => r == Ok::<TomlConfig, HeliocronError>(layer),
                Err(_) => r == Err::<TomlConfig, HeliocronError>(invalid_file()),
            },
    {
        match config {
            Ok(layer) => Ok(layer),
            Err(_) => Err(HeliocronError::Config(ConfigErrorKind::InvalidConfigFile)),
        }
    }
}

/// The resolved configuration.
#[derive(Debug, Clone, PartialEq, Eq)]
pub struct Config {
    pub coordinates: Coordinates,
    pub date: Timestamp,
    pub subcommand: Option<Subcommand>,
    pub event: Option<Event>,
}

/// A configuration with its position as numbers.
pub struct Resolved {
    pub coordinates: Position,
    pub date: Timestamp,
    pub subcommand: Option<Subcommand>,
    pub event: Option<Event>,
}

impl View for Config {
    type V = Resolved;

    open spec fn view(&self) -> Resolved {
        Resolved {
            coordinates: self.coordinates@,
            date: self.date,
            subcommand: self.subcommand,
            event: self.event,
        }
    }
}

/// Whether the outcome `r` of a merge is `expected`.
pub open spec fn resolves(
    r: Result<Config, HeliocronError>,
    expected: Result<Resolved, HeliocronError>,
) -> bool {
    match (r, expected) {
        (Ok(config), Ok(resolved)) => config@ == resolved,
        (Err(error), Err(other)) => error == other,
        _ => false,
    }
}

/// The position after a layer: the one that the layer's two strings give
/// where both are there, else the one before.
pub open spec fn overridden(
    current: Position,
    latitude: Option<Seq<char>>,
    longitude: Option<Seq<char>>,
) -> Result<Position, HeliocronError> {
    match (latitude, longitude) {
        (Some(latitude), Some(longitude)) => position_of(latitude, longitude),
        _ => Ok(current),
    }
}

/// The configuration after the layer of the file.
pub open spec fn toml_merged(config: Resolved, layer: TomlConfig) -> Result<
    Resolved,
    HeliocronError,
> {
    match overridden(config.coordinates, chars(layer.latitude), chars(layer.longitude)) {
        Ok(position) => Ok(Resolved { coordinates: position, ..config }),
        Err(error) => Err(error),
    }
}

/// The configuration after the layer of the command line, `local` being
/// the offset under which a date without a zone is meant.
pub open spec fn cli_merged(config: Resolved, cli: Cli, local: i32) -> Result<
    Resolved,
    HeliocronError,
> {
    match overridden(config.coordinates, chars(cli.latitude), chars(cli.longitude)) {
        Err(error) => Err(error),
        Ok(position) => {
            let date = match cli.date_args.date {
                Some(date) => date_of(
                    date@,
                    cli.date_args.date_format@,
                    chars(cli.date_args.time_zone),
                    local,
                ),
                None => Ok(config.date),
            };
            match date {
                Err(error) => Err(error),
                Ok(date) => Ok(
                    Resolved {
                        coordinates: position,
                        date,
                        subcommand: Some(cli.subcommand),
                        event: config.event,
                    },
                ),
            }
        },
    }
}

/// Whether the command line leaves the zone of its date to the system.
pub open spec fn needs_local(cli: Cli) -> bool {
    cli.date_args.date is Some && cli.date_args.time_zone is None
}

/// The position that holds where no layer names another: 51.4769N,
/// 0.0005W.
pub open spec fn default_position() -> Position {
    Position {
        latitude: Degrees { negative: false, whole: 51, fraction: seq![4u8, 7u8, 6u8, 9u8] },
        longitude: Degrees { negative: true, whole: 0, fraction: seq![0u8, 0u8, 0u8, 5u8] },
    }
}

/// The configuration before any layer at the moment `now`: the default
/// position, noon of the day, no command and no event.
pub open spec fn defaults(now: Timestamp) -> Resolved {
    Resolved { coordinates: default_position(), date: now.noon(), subcommand: None, event: None }
}

/// The defaults after what was found of the configuration file: nothing,
/// content that could not be taken apart, or a layer. Whatever fails in
/// the file is the file's fault.
pub open spec fn file_merged(
    config: Resolved,
    file: Option<Result<TomlConfig, toml::de::Error>>,
) -> Result<Resolved, HeliocronError> {
    match file {
        None => Ok(config),
        Some(Err(_)) => Err(invalid_file()),
        Some(Ok(layer)) => match toml_merged(config, layer) {
            Ok(merged) => Ok(merged),
            Err(_) => Err(invalid_file()),
        },
    }
}

/// The configuration that a run resolves to at the moment `now`: the
/// defaults, then the file, then the command line.
pub open spec fn resolution(
    now: Timestamp,
    file: Option<Result<TomlConfig, toml::de::Error>>,
    cli: Cli,
) -> Result<Resolved, HeliocronError> {
    match file_merged(defaults(now), file) {
        Err(error) => Err(error),
        Ok(config) => cli_merged(config, cli, now.offset),
    }
}

/// The first `n` characters of `text` write the digits `digits`, and `n`
/// is the place of the first point in it.
proof fn lemma_decimal(text: Seq<char>, whole: Seq<u8>, fraction: Seq<u8>)
    requires
        text =~= whole.map_values(|d: u8| (d + 48) as char) + seq!['.'] + fraction.map_values(
            |d: u8| (d + 48) as char,
        ),
        forall|i: int| 0 <= i < whole.len() ==> #[trigger] whole[i] <= 9,
        forall|i: int| 0 <= i < fraction.len() ==> #[trigger] fraction[i] <= 9,
    ensures
        digits_of(whole_part(text)) == whole,
        digits_of(fraction_part(text)) == fraction,
        all_digits(whole_part(text)),
        all_digits(fraction_part(text)),
{
    let k = whole.len() as int;
    text.index_of_first_ensures('.');
    assert(text[k] == '.');
    assert forall|j: int| 0 <= j < k implies text[j] != '.' by {
        assert(whole[j] <= 9);
    }
    assert(whole_part(text) =~= text.take(k));
    assert(fraction_part(text) =~= text.skip(k + 1));
    assert forall|j: int| 0 <= j < k implies digits_of(whole_part(text))[j] == whole[j] by {
        assert(whole[j] <= 9);
    }
    assert(digits_of(whole_part(text)) =~= whole);
    assert forall|j: int| 0 <= j < fraction.len() implies digits_of(fraction_part(text))[j]
        == fraction[j] by {
        assert(fraction[j] <= 9);
    }
    assert(digits_of(fraction_part(text)) =~= fraction);
    assert forall|j: int| 0 <= j < whole_part(text).len() implies is_digit(
        #[trigger] whole_part(text)[j],
    ) by {
        assert(whole[j] <= 9);
    }
    assert forall|j: int| 0 <= j < fraction_part(text).len() implies is_digit(
        #[trigger] fraction_part(text)[j],
    ) by {
        assert(fraction[j] <= 9);
    }
}

/// The default position is what the strings `51.4769N` and `0.0005W` read
/// as.
pub proof fn lemma_default_position()
    ensures
        position_of("51.4769N"@, "0.0005W"@) == Ok::<Position, HeliocronError>(default_position()),
{
    reveal_strlit("51.4769N");
    reveal_strlit("0.0005W");
    let north = "51.4769N"@.drop_last();
    let west = "0.0005W"@.drop_last();
    let position = default_position();
    lemma_decimal(north, seq![5u8, 1u8], position.latitude.fraction);
    lemma_decimal(west, seq![0u8], position.longitude.fraction);
    lemma_value_push(Seq::empty(), 5u8);
    lemma_value_push(seq![5u8], 1u8);
    assert(seq![5u8, 1u8] =~= seq![5u8].push(1u8));
    assert(seq![5u8] =~= Seq::<u8>::empty().push(5u8));
    lemma_value_push(Seq::empty(), 0u8);
    assert(seq![0u8] =~= Seq::<u8>::empty().push(0u8));
    lemma_within(position.latitude, Axis::Latitude.limit());
    lemma_within(position.longitude, Axis::Longitude.limit());
}

/// A string that may be missing, borrowed.
fn borrowed(text: &Option<String>) -> (r: Option<&str>)
    ensures
        text_of(r) == chars(*text),
{
    match text {
        Some(text) => Some(text.as_str()),
        None => None,
    }
}

impl Config {
    /// Whether the position lies on the globe.
    pub open spec fn wf(&self) -> bool {
        self.coordinates.wf()
    }

    /// The configuration before any layer at the moment `now`.
    pub fn new(now: Timestamp) -> (r: Config)
        ensures
            r@ == defaults(now),
            r.wf(),
    {
        let latitude = Angle { negative: false, whole: 51, fraction: vec![4, 7, 6, 9] };
        let longitude = Angle { negative: true, whole: 0, fraction: vec![0, 0, 0, 5] };
        proof {
            assert(latitude.fraction@ =~= default_position().latitude.fraction);
            assert(longitude.fraction@ =~= default_position().longitude.fraction);
            lemma_within(latitude@, Axis::Latitude.limit());
            lemma_within(longitude@, Axis::Longitude.limit());
        }
        Config {
            coordinates: Coordinates { latitude, longitude },
            date: now.at_noon(),
            subcommand: None,
            event: None,
        }
    }

    /// Lays the file's layer over the configuration: where the file names
    /// both a latitude and a longitude, they replace the position; one
    /// alone changes nothing.
    pub fn merge_toml(self, toml_config: TomlConfig) -> (r: Result<Config, HeliocronError>)
        ensures
            resolves(r, toml_merged(self@, toml_config)),
            self.wf() && r is Ok ==> r.unwrap().wf(),
    {
        match (toml_config.latitude, toml_config.longitude) {
            (Some(latitude), Some(longitude)) => {
                match Coordinates::from_decimal_degrees(latitude.as_str(), longitude.as_str()) {
                    Ok(coordinates) => Ok(
                        Config {
                            coordinates,
                            date: self.date,
                            subcommand: self.subcommand,
                            event: self.event,
                        },
                    ),
                    Err(error) => Err(error),
                }
            },
            _ => Ok(self),
        }
    }

    /// Lays what was found of the configuration file over the
    /// configuration. A file that is missing changes nothing; content that
    /// could not be taken apart, or that names a position which is refused,
    /// is an error of the file.
    pub fn merge_file(self, file: Option<Result<TomlConfig, toml::de::Error>>) -> (r: Result<
        Config,
        HeliocronError,
    >)
        ensures
            resolves(r, file_merged(self@, file)),
            self.wf() && r is Ok ==> r.unwrap().wf(),
    {
        match file {
            Some(parsed) => {
                let merged = match TomlConfig::from_toml(parsed) {
                    Ok(layer) => self.merge_toml(layer),
                    Err(error) => Err(error),
                };
                match merged {
                    Ok(config) => Ok(config),
                    // whatever is wrong in the file, the file is to blame
                    Err(_) => Err(HeliocronError::Config(ConfigErrorKind::InvalidConfigFile)),
                }
            },
            // without a file the configuration stands as it is
            None => Ok(self),
        }
    }

    /// Lays the command line over the configuration, `local` being the
    /// offset under which a date without a zone is meant: a latitude and a
    /// longitude replace the position, a date replaces the date, and the
    /// command is set.
    pub fn merge_cli_args_at(self, cli_args: Cli, local: i32) -> (r: Result<Config, HeliocronError>)
        ensures
            resolves(r, cli_merged(self@, cli_args, local)),
            self.wf() && r is Ok ==> r.unwrap().wf(),
    {
        let coordinates = match (&cli_args.latitude, &cli_args.longitude) {
            (Some(latitude), Some(longitude)) => {
                match Coordinates::from_decimal_degrees(latitude.as_str(), longitude.as_str()) {
                    Ok(coordinates) => coordinates,
                    Err(error) => {
                        return Err(error);
                    },
                }
            },
            _ => self.coordinates,
        };
        let date = match &cli_args.date_args.date {
            Some(date) => {
                match parse_date_at(
                    date.as_str(),
                    cli_args.date_args.date_format.as_str(),
                    borrowed(&cli_args.date_args.time_zone),
                    local,
                ) {
                    Ok(date) => date,
                    Err(error) => {
                        return Err(error);
                    },
                }
            },
            None => self.date,
        };
        Ok(Config { coordinates, date, subcommand: Some(cli_args.subcommand), event: self.event })
    }

    /// Lays the command line over the configuration. A date without a zone
    /// is meant under the offset that the system's time zone has at this
    /// moment.
    pub fn merge_cli_args(self, cli_args: Cli) -> (r: Result<Config, HeliocronError>)
        ensures
            exists|local: i32| resolves(r, cli_merged(self@, cli_args, local)),
            !needs_local(cli_args) ==> resolves(r, cli_merged(self@, cli_args, 0)),
            self.wf() && r is Ok ==> r.unwrap().wf(),
    {
        let local = if cli_args.date_args.date.is_some() && cli_args.date_args.time_zone.is_none() {
            local_now().offset
        } else {
            0
        };
        self.merge_cli_args_at(cli_args, local)
    }
}

/// Resolves the configuration of a run at the moment `now` from what was
/// found of the configuration file (`None` where it is missing or cannot be
/// read) and from the command line.
pub fn resolve(now: Timestamp, file: Option<Result<TomlConfig, toml::de::Error>>, cli_args: Cli) -> (r:
    Result<Config, HeliocronError>)
    ensures
        resolves(r, resolution(now, file, cli_args)),
        r is Ok ==> r.unwrap().wf(),
{
    match Config::new(now).merge_file(file) {
        Ok(config) => config.merge_cli_args_at(cli_args, now.offset),
        Err(error) => Err(error),
    }
}

/// The configuration of this run before the command line: the defaults,
/// taken at the present moment, under what was found of the configuration
/// file (`None` where it is missing or cannot be read).
pub fn base_config(file: Option<Result<TomlConfig, toml::de::Error>>) -> (r: Result<
    Config,
    HeliocronError,
>)
    ensures
        exists|now: Timestamp| resolves(r, file_merged(defaults(now), file)),
        file matches Some(Err(_)) ==> r == Err::<Config, HeliocronError>(invalid_file()),
        file is None ==> r is Ok,
        r is Ok ==> r.unwrap().wf(),
{
    let now = local_now();
    Config::new(now).merge_file(file)
}

/// Resolves the configuration of this run from what was found of the
/// configuration file (`None` where it is missing or cannot be read) and
/// from the command line. The defaults are taken at the present moment.
pub fn get_config(file: Option<Result<TomlConfig, toml::de::Error>>, cli_args: Cli) -> (r: Result<
    Config,
    HeliocronError,
>)
    ensures
        exists|now: Timestamp| resolves(r, resolution(now, file, cli_args)),
        file matches Some(Err(_)) ==> r == Err::<Config, HeliocronError>(invalid_file()),
        r is Ok ==> r.unwrap().wf(),
{
    let now = local_now();
    resolve(now, file, cli_args)
}

/// A later layer wins, but only where it names both coordinates: the
/// position after the command line is the one that the command line names,
/// else the one that the file names, else the default.
pub proof fn lemma_later_layer_wins(now: Timestamp, layer: TomlConfig, cli: Cli)
    requires
        resolution(now, Some(Ok(layer)), cli) is Ok,
    ensures
        resolution(now, Some(Ok(layer)), cli).unwrap().coordinates == (if cli.latitude is Some
            && cli.longitude is Some {
            position_of(cli.latitude.unwrap()@, cli.longitude.unwrap()@).unwrap()
        } else if layer.latitude is Some && layer.longitude is Some {
            position_of(layer.latitude.unwrap()@, layer.longitude.unwrap()@).unwrap()
        } else {
            default_position()
        }),
{
}

/// Without a configuration file the run resolves from the defaults alone,
/// and the file layer raises no error. A file whose content could not be
/// taken apart, or whose position is refused, ends the run in the file's
/// error whatever the command line holds.
pub proof fn lemma_file_outcomes(
    now: Timestamp,
    file: Option<Result<TomlConfig, toml::de::Error>>,
    cli: Cli,
)
    ensures
        file is None ==> file_merged(defaults(now), file) == Ok::<Resolved, HeliocronError>(
            defaults(now),
        ) && resolution(now, file, cli) == cli_merged(defaults(now), cli, now.offset),
        file matches Some(Err(_)) ==> resolution(now, file, cli) == Err::<Resolved, HeliocronError>(
            invalid_file(),
        ),
        file matches Some(Ok(layer)) && toml_merged(defaults(now), layer) is Err ==> resolution(
            now,
            file,
            cli,
        ) == Err::<Resolved, HeliocronError>(invalid_file()),
{
}

/// The command line always sets the command, once, and leaves the event
/// alone; without a date on it, the date stands.
pub proof fn lemma_command_is_set(config: Resolved, cli: Cli, local: i32)
    requires
        cli_merged(config, cli, local) is Ok,
    ensures
        cli_merged(config, cli, local).unwrap().subcommand == Some(cli.subcommand),
        cli_merged(config, cli, local).unwrap().event == config.event,
        cli.date_args.date is None ==> cli_merged(config, cli, local).unwrap().date == config.date,
{
}

/// A malformed offset does not stop the merge and is not replaced by
/// anything: the merge succeeds exactly when it would for a report, and the
/// command then holds the failure, which asking for the offset gives.
pub proof fn lemma_offset_failure_is_kept(config: Resolved, cli: Cli, local: i32, text: Seq<char>)
    requires
        offset_of(text) is Err,
        cli.subcommand matches Subcommand::Wait { offset, .. } && offset == offset_of(text),
    ensures
        cli_merged(config, cli, local) is Ok <==> cli_merged(
            config,
            Cli { subcommand: Subcommand::Report {  }, ..cli },
            local,
        ) is Ok,
        cli_merged(config, cli, local) is Ok ==> cli_merged(config, cli, local).unwrap().subcommand
            == Some(cli.subcommand),
        cli.subcommand.stored_offset() == Err::<Option<Offset>, HeliocronError>(invalid_offset()),
{
}

} // verus!
