//! The definition of the game itself: its name, its author, and where the
//! player starts.

use crate::config::ConfigError;
use crate::config::objects::{entries_of, key_of, text_of};
use crate::config::yaml::{
    Entries, YamlNode, entry_value, find_entry, lemma_try_fold_done, lemma_try_fold_next, try_fold,
};
use crate::text::text_is;
use crate::world::{GameData, GameDataView, GameInfoView};
use vstd::prelude::*;

verus! {

/// The whole number that the entry `key` of a mapping must give.
pub open spec fn integer_entry(entries: Entries, key: Seq<char>) -> Result<i64, ConfigError> {
    match entry_value(entries, key) {
        Some(value) => match value.integer() {
            Some(number) => Ok(number),
            None => Err(ConfigError::NotAnInteger),
        },
        None => Err(ConfigError::NotAnInteger),
    }
}

/// The two whole numbers that a mapping gives under the keys `first` and
/// `second`.
pub open spec fn integer_pair(node: YamlNode, first: Seq<char>, second: Seq<char>) -> Result<
    (i64, i64),
    ConfigError,
> {
    match entries_of(node) {
        Err(error) => Err(error),
        Ok(entries) => match integer_entry(entries, first) {
            Err(error) => Err(error),
            Ok(a) => match integer_entry(entries, second) {
                Err(error) => Err(error),
                Ok(b) => Ok((a, b)),
            },
        },
    }
}

/// One entry of the definition of the game. Sizes and positions keep their
/// low 16 bits.
pub open spec fn game_entry_step() -> spec_fn(GameInfoView, (YamlNode, YamlNode)) -> Result<
    GameInfoView,
    ConfigError,
> {
    |info: GameInfoView, entry: (YamlNode, YamlNode)|
        match key_of(entry.0) {
            Err(error) => Err(error),
            Ok(key) => if key == "name"@ {
                match text_of(entry.1) {
                    Err(error) => Err(error),
                    Ok(name) => Ok(GameInfoView { name, ..info }),
                }
            } else if key == "description"@ {
                match text_of(entry.1) {
                    Err(error) => Err(error),
                    Ok(description) => Ok(GameInfoView { description, ..info }),
                }
            } else if key == "author"@ {
                match text_of(entry.1) {
                    Err(error) => Err(error),
                    Ok(author) => Ok(GameInfoView { author, ..info }),
                }
            } else if key == "min_screen_size"@ {
                match integer_pair(entry.1, "width"@, "height"@) {
                    Err(error) => Err(error),
                    Ok((width, height)) => Ok(
                        GameInfoView {
                            min_screen_cols: width as u16,
                            min_screen_rows: height as u16,
                            ..info
                        },
                    ),
                }
            } else if key == "starting_map"@ {
                match text_of(entry.1) {
                    Err(error) => Err(error),
                    Ok(starting_map) => Ok(GameInfoView { starting_map, ..info }),
                }
            } else if key == "starting_position"@ {
                match integer_pair(entry.1, "x"@, "y"@) {
                    Err(error) => Err(error),
                    Ok((x, y)) => Ok(
                        GameInfoView {
                            starting_position_x: x as u16,
                            starting_position_y: y as u16,
                            ..info
                        },
                    ),
                }
            } else {
                Ok(info)
            },
        }
}

/// What is known of the game after the first of the documents was read.
pub open spec fn game_info_of(info: GameInfoView, docs: Seq<YamlNode>) -> Result<
    GameInfoView,
    ConfigError,
> {
    if docs.len() == 0 {
        Err(ConfigError::NoDocument)
    } else {
        match entries_of(docs[0]) {
            Err(error) => Err(error),
            Ok(entries) => try_fold(info, entries, game_entry_step()),
        }
    }
}

fn read_integer(entries: &Vec<(YamlNode, YamlNode)>, key: &str) -> (number: Result<
    i64,
    ConfigError,
>)
    ensures
        number == integer_entry(entries@, key@),
{
    match find_entry(entries, key) {
        Some(value) => match value.as_i64() {
            Some(number) => Ok(number),
            None => Err(ConfigError::NotAnInteger),
        },
        None => Err(ConfigError::NotAnInteger),
    }
}

fn read_integer_pair(node: &YamlNode, first: &str, second: &str) -> (pair: Result<
    (i64, i64),
    ConfigError,
>)
    ensures
        pair == integer_pair(*node, first@, second@),
{
    let entries = match node.as_hash() {
        Some(entries) => entries,
        None => {
            return Err(ConfigError::NotAMapping);
        },
    };
    let a = read_integer(entries, first)?;
    let b = read_integer(entries, second)?;
    Ok((a, b))
}

/// What `process_config` has read so far.
struct Settings {
    name: String,
    description: String,
    author: String,
    min_screen_cols: u16,
    min_screen_rows: u16,
    starting_map: String,
    starting_position_x: u16,
    starting_position_y: u16,
}

impl Settings {
    spec fn over(self, info: GameInfoView) -> GameInfoView {
        GameInfoView {
            name: self.name@,
            description: self.description@,
            author: self.author@,
            min_screen_cols: self.min_screen_cols,
            min_screen_rows: self.min_screen_rows,
            starting_map: self.starting_map@,
            starting_position_x: self.starting_position_x,
            starting_position_y: self.starting_position_y,
            player: info.player,
        }
    }
}

/// Reads what the first of `docs` says of the game into `game_data`. Where
/// the definition has an error `game_data` stays as it was.
#[verifier::loop_isolation(false)]
pub fn process_config(game_data: &mut GameData, docs: &Vec<YamlNode>) -> (done: Result<
    (),
    ConfigError,
>)
    ensures
        match game_info_of(old(game_data)@.info, docs@) {
            Ok(info) => done is Ok && final(game_data)@ == (GameDataView {
                info,
                ..old(game_data)@
            }),
            Err(error) => done == Err::<(), ConfigError>(error) && final(game_data)@ == old(
                game_data,
            )@,
        },
{
    if docs.len() == 0 {
        return Err(ConfigError::NoDocument);
    }
    let entries = match docs[0].as_hash() {
        Some(entries) => entries,
        None => {
            return Err(ConfigError::NotAMapping);
        },
    };
    let ghost start = game_data@.info;
    let mut read = Settings {
        name: game_data.info.name.clone(),
        description: game_data.info.description.clone(),
        author: game_data.info.author.clone(),
        min_screen_cols: game_data.info.min_screen_cols,
        min_screen_rows: game_data.info.min_screen_rows,
        starting_map: game_data.info.starting_map.clone(),
        starting_position_x: game_data.info.starting_position_x,
        starting_position_y: game_data.info.starting_position_y,
    };
    assert(read.over(start) == start);
    let mut i: usize = 0;
    proof {
        lemma_try_fold_done(start, entries@, game_entry_step());
    }
    while i < entries.len()
        invariant
            i <= entries.len(),
            *game_data == *old(game_data),
            try_fold(start, entries@, game_entry_step()) == try_fold(
                read.over(start),
                entries@.skip(i as int),
                game_entry_step(),
            ),
        decreases entries.len() - i,
    {
        proof {
            lemma_try_fold_next(read.over(start), entries@, game_entry_step(), i as int);
        }
        let key = match entries[i].0.as_str() {
            Some(key) => key,
            None => {
                return Err(ConfigError::KeyNotText);
            },
        };
        let val = &entries[i].1;
        if text_is(key, "name") {
            read.name = read_text(val)?;
        } else if text_is(key, "description") {
            read.description = read_text(val)?;
        } else if text_is(key, "author") {
            read.author = read_text(val)?;
        } else if text_is(key, "min_screen_size") {
            let (width, height) = read_integer_pair(val, "width", "height")?;
            read.min_screen_cols = #[verifier::truncate]
            (width as u16);
            read.min_screen_rows = #[verifier::truncate]
            (height as u16);
        } else if text_is(key, "starting_map") {
            read.starting_map = read_text(val)?;
        } else if text_is(key, "starting_position") {
            let (x, y) = read_integer_pair(val, "x", "y")?;
            read.starting_position_x = #[verifier::truncate]
            (x as u16);
            read.starting_position_y = #[verifier::truncate]
            (y as u16);
        }
        i += 1;
    }
    proof {
        lemma_try_fold_done(read.over(start), entries@, game_entry_step());
    }
    game_data.info.name = read.name;
    game_data.info.description = read.description;
    game_data.info.author = read.author;
    game_data.info.min_screen_cols = read.min_screen_cols;
    game_data.info.min_screen_rows = read.min_screen_rows;
    game_data.info.starting_map = read.starting_map;
    game_data.info.starting_position_x = read.starting_position_x;
    game_data.info.starting_position_y = read.starting_position_y;
    Ok(())
}

fn read_text(node: &YamlNode) -> (text: Result<String, ConfigError>)
    ensures
        match text {
            Ok(text) => text_of(*node) == Ok::<Seq<char>, ConfigError>(text@),
            Err(error) => text_of(*node) == Err::<Seq<char>, ConfigError>(error),
        },
{
    match node.as_str() {
        Some(text) => Ok(text.clone()),
        None => Err(ConfigError::NotText),
    }
}

} // verus!
