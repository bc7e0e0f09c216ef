//! Command-line options: the simulation mode, the seed pattern and whether
//! to run as a desktop wallpaper.

use vstd::prelude::*;
use crate::game_of_life::{
    blinker_pattern, glider_pattern, placed, r_pentomino_pattern, seed_blinker, seed_glider, seed_r_pentomino,
};

verus! {

/// Which simulation runs.
#[derive(Clone, Copy, Debug, PartialEq, Eq, Structural)]
pub enum SimMode {
    GameOfLife,
    Physarum,
}

/// Pattern placed at the centre of the Game of Life grid at start-up.
#[derive(Clone, Copy, Debug, PartialEq, Eq, Structural)]
pub enum SeedPattern {
    Blinker,
    Glider,
    RPentomino,
}

/// Options read from the command line.
#[derive(Clone, Copy, Debug, PartialEq, Eq, Structural)]
pub struct AppConfig {
    pub seed: SeedPattern,
    pub wallpaper: bool,
    pub mode: SimMode,
}

/// Why the command line was refused.
#[derive(Clone, Debug)]
pub enum ArgError {
    /// `--mode` named something other than `gol` or `physarum`.
    UnknownMode(String),
    /// `--mode` was the last argument.
    MissingModeValue,
    /// `--seed` named something other than `blinker`, `glider` or
    /// `r-pentomino`.
    UnknownSeed(String),
    /// `--seed` was the last argument.
    MissingSeedValue,
}

/// What parsing a command line comes to, with the offending argument of an
/// error as characters.
pub enum ArgsOutcome {
    Parsed(AppConfig),
    UnknownMode(Seq<char>),
    MissingModeValue,
    UnknownSeed(Seq<char>),
    MissingSeedValue,
}

/// Options in force when the command line names none: Game of Life seeded
/// with an R-pentomino, in a window.
pub open spec fn default_config() -> AppConfig {
    AppConfig { seed: SeedPattern::RPentomino, wallpaper: false, mode: SimMode::GameOfLife }
}

/// The arguments as character sequences.
pub open spec fn arg_views(args: Seq<String>) -> Seq<Seq<char>> {
    args.map_values(|s: String| s@)
}

/// Outcome of reading `args` from position `i` on, with `cfg` the options
/// gathered so far. Unrecognised arguments are skipped; a later option
/// overrides an earlier one.
pub open spec fn parse_from(args: Seq<Seq<char>>, i: int, cfg: AppConfig) -> ArgsOutcome
    decreases args.len() - i,
{
    if i < 0 || i >= args.len() {
        ArgsOutcome::Parsed(cfg)
    } else if args[i] == "--wallpaper"@ {
        parse_from(args, i + 1, AppConfig { wallpaper: true, ..cfg })
    } else if args[i] == "--mode"@ {
        if i + 1 < args.len() {
            if args[i + 1] == "gol"@ {
                parse_from(args, i + 2, AppConfig { mode: SimMode::GameOfLife, ..cfg })
            } else if args[i + 1] == "physarum"@ {
                parse_from(args, i + 2, AppConfig { mode: SimMode::Physarum, ..cfg })
            } else {
                ArgsOutcome::UnknownMode(args[i + 1])
            }
        } else {
            ArgsOutcome::MissingModeValue
        }
    } else if args[i] == "--seed"@ {
        if i + 1 < args.len() {
            if args[i + 1] == "blinker"@ {
                parse_from(args, i + 2, AppConfig { seed: SeedPattern::Blinker, ..cfg })
            } else if args[i + 1] == "glider"@ {
                parse_from(args, i + 2, AppConfig { seed: SeedPattern::Glider, ..cfg })
            } else if args[i + 1] == "r-pentomino"@ {
                parse_from(args, i + 2, AppConfig { seed: SeedPattern::RPentomino, ..cfg })
            } else {
                ArgsOutcome::UnknownSeed(args[i + 1])
            }
        } else {
            ArgsOutcome::MissingSeedValue
        }
    } else {
        parse_from(args, i + 1, cfg)
    }
}

/// Outcome of a full command line, whose first argument is the program name.
pub open spec fn parse_spec(args: Seq<Seq<char>>) -> ArgsOutcome {
    parse_from(args, 1, default_config())
}

/// The outcome that a result of `parse_args` stands for.
pub open spec fn outcome_of(r: Result<AppConfig, ArgError>) -> ArgsOutcome {
    match r {
        Ok(cfg) => ArgsOutcome::Parsed(cfg),
        Err(ArgError::UnknownMode(s)) => ArgsOutcome::UnknownMode(s@),
        Err(ArgError::MissingModeValue) => ArgsOutcome::MissingModeValue,
        Err(ArgError::UnknownSeed(s)) => ArgsOutcome::UnknownSeed(s@),
        Err(ArgError::MissingSeedValue) => ArgsOutcome::MissingSeedValue,
    }
}

/// Reads the options from a command line whose first argument is the
/// program name: `--wallpaper`, `--mode gol|physarum` and
/// `--seed blinker|glider|r-pentomino`; anything else is ignored.
pub fn parse_args(args: &[String]) -> (r: Result<AppConfig, ArgError>)
    ensures
        outcome_of(r) == parse_spec(arg_views(args@)),
{
    let ghost a = arg_views(args@);
    let wallpaper_flag = "--wallpaper".to_owned();
    let mode_flag = "--mode".to_owned();
    let seed_flag = "--seed".to_owned();
    let gol = "gol".to_owned();
    let physarum = "physarum".to_owned();
    let blinker = "blinker".to_owned();
    let glider = "glider".to_owned();
    let r_pentomino = "r-pentomino".to_owned();
    let mut cfg = AppConfig { seed: SeedPattern::RPentomino, wallpaper: false, mode: SimMode::GameOfLife };
    let mut i: usize = 1;
    while i < args.len()
        invariant
            a == arg_views(args@),
            a.len() == args@.len(),
            wallpaper_flag@ == "--wallpaper"@,
            mode_flag@ == "--mode"@,
            seed_flag@ == "--seed"@,
            gol@ == "gol"@,
            physarum@ == "physarum"@,
            blinker@ == "blinker"@,
            glider@ == "glider"@,
            r_pentomino@ == "r-pentomino"@,
            i >= 1,
            parse_from(a, i as int, cfg) == parse_spec(a),
        decreases args.len() - i,
    {
        assert(a[i as int] == args@[i as int]@);
        if args[i] == wallpaper_flag {
            cfg = AppConfig { wallpaper: true, ..cfg };
        } else if args[i] == mode_flag {
            if i + 1 < args.len() {
                assert(a[i + 1] == args@[i + 1]@);
                if args[i + 1] == gol {
                    cfg = AppConfig { mode: SimMode::GameOfLife, ..cfg };
                } else if args[i + 1] == physarum {
                    cfg = AppConfig { mode: SimMode::Physarum, ..cfg };
                } else {
                    return Err(ArgError::UnknownMode(args[i + 1].clone()));
                }
                i += 1;
            } else {
                return Err(ArgError::MissingModeValue);
            }
        } else if args[i] == seed_flag {
            if i + 1 < args.len() {
                assert(a[i + 1] == args@[i + 1]@);
                if args[i + 1] == blinker {
                    cfg = AppConfig { seed: SeedPattern::Blinker, ..cfg };
                } else if args[i + 1] == glider {
                    cfg = AppConfig { seed: SeedPattern::Glider, ..cfg };
                } else if args[i + 1] == r_pentomino {
                    cfg = AppConfig { seed: SeedPattern::RPentomino, ..cfg };
                } else {
                    return Err(ArgError::UnknownSeed(args[i + 1].clone()));
                }
                i += 1;
            } else {
                return Err(ArgError::MissingSeedValue);
            }
        }
        i += 1;
    }
    Ok(cfg)
}

/// Cells of `pattern`, relative to its centre.
pub open spec fn seed_cells(pattern: SeedPattern) -> Seq<(isize, isize)> {
    match pattern {
        SeedPattern::Blinker => blinker_pattern(),
        SeedPattern::Glider => glider_pattern(),
        SeedPattern::RPentomino => r_pentomino_pattern(),
    }
}

/// Places `pattern` at the centre of a `width` by `height` grid.
pub fn seed_grid(grid: &mut [u8], pattern: SeedPattern, width: usize, height: usize)
    requires
        width >= 1,
        height >= 1,
        width * height <= old(grid).len(),
    ensures
        final(grid)@ == placed(
            old(grid)@,
            width as int / 2,
            height as int / 2,
            seed_cells(pattern),
            width as int,
            height as int,
        ),
{
    let cx = width / 2;
    let cy = height / 2;
    match pattern {
        SeedPattern::Blinker => seed_blinker(grid, cx, cy, width, height),
        SeedPattern::Glider => seed_glider(grid, cx, cy, width, height),
        SeedPattern::RPentomino => seed_r_pentomino(grid, cx, cy, width, height),
    }
}


/// Whether some argument at position `i` or later is `flag`.
pub open spec fn mentions(args: Seq<Seq<char>>, i: int, flag: Seq<char>) -> bool {
    exists|k: int| i <= k < args.len() && args[k] == flag
}

proof fn unmentioned_options_keep_their_value(args: Seq<Seq<char>>, i: int, cfg: AppConfig)
    requires
        i >= 0,
    ensures
        parse_from(args, i, cfg) matches ArgsOutcome::Parsed(c) ==> {
            &&& !mentions(args, i, "--mode"@) ==> c.mode == cfg.mode
            &&& !mentions(args, i, "--seed"@) ==> c.seed == cfg.seed
            &&& !mentions(args, i, "--wallpaper"@) ==> c.wallpaper == cfg.wallpaper
        },
    decreases args.len() - i,
{
    if i < args.len() {
        assert forall|f: Seq<char>| !mentions(args, i, f) implies !mentions(args, i + 1, f) && !mentions(args, i + 2, f) by {
            if mentions(args, i + 1, f) {
                let k = choose|k: int| i + 1 <= k < args.len() && args[k] == f;
                assert(i <= k < args.len() && args[k] == f);
            }
            if mentions(args, i + 2, f) {
                let k = choose|k: int| i + 2 <= k < args.len() && args[k] == f;
                assert(i <= k < args.len() && args[k] == f);
            }
        }
        assert(mentions(args, i, args[i]));
        if args[i] == "--wallpaper"@ {
            unmentioned_options_keep_their_value(args, i + 1, AppConfig { wallpaper: true, ..cfg });
        } else if args[i] == "--mode"@ {
            if i + 1 < args.len() {
                unmentioned_options_keep_their_value(args, i + 2, AppConfig { mode: SimMode::GameOfLife, ..cfg });
                unmentioned_options_keep_their_value(args, i + 2, AppConfig { mode: SimMode::Physarum, ..cfg });
            }
        } else if args[i] == "--seed"@ {
            if i + 1 < args.len() {
                unmentioned_options_keep_their_value(args, i + 2, AppConfig { seed: SeedPattern::Blinker, ..cfg });
                unmentioned_options_keep_their_value(args, i + 2, AppConfig { seed: SeedPattern::Glider, ..cfg });
                unmentioned_options_keep_their_value(args, i + 2, AppConfig { seed: SeedPattern::RPentomino, ..cfg });
            }
        } else {
            unmentioned_options_keep_their_value(args, i + 1, cfg);
        }
    }
}

/// Defaults: a command line that names no `--mode` runs the Game of Life,
/// one that names no `--seed` seeds an R-pentomino, and one that names no
/// `--wallpaper` runs in a window.
pub proof fn unnamed_options_take_defaults(args: Seq<Seq<char>>)
    ensures
        parse_spec(args) matches ArgsOutcome::Parsed(c) ==> {
            &&& !mentions(args, 1, "--mode"@) ==> c.mode == SimMode::GameOfLife
            &&& !mentions(args, 1, "--seed"@) ==> c.seed == SeedPattern::RPentomino
            &&& !mentions(args, 1, "--wallpaper"@) ==> !c.wallpaper
        },
{
    unmentioned_options_keep_their_value(args, 1, default_config());
}

/// An unknown mode is refused, whatever comes after it: `--mode` followed
/// by a word other than `gol` or `physarum`, at a position reached by the
/// parse, ends it with that word as the error.
pub proof fn unknown_mode_is_refused(args: Seq<Seq<char>>, i: int, cfg: AppConfig)
    requires
        0 <= i,
        i + 1 < args.len(),
        args[i] == "--mode"@,
        args[i + 1] != "gol"@,
        args[i + 1] != "physarum"@,
    ensures
        parse_from(args, i, cfg) == ArgsOutcome::UnknownMode(args[i + 1]),
{
    reveal_strlit("--mode");
    reveal_strlit("--wallpaper");
    assert(args[i] != "--wallpaper"@) by {
        assert(args[i].len() != ("--wallpaper"@).len());
    }
}


/// The start-up patterns, in plain offsets from the grid centre: the
/// blinker is three cells in a row, the glider is `.X. / ..X / XXX`, and the
/// R-pentomino is `.XX / XX. / .X.`.
pub proof fn seed_patterns_in_offsets()
    ensures
        seed_cells(SeedPattern::Blinker) == seq![(-1isize, 0isize), (0isize, 0isize), (1isize, 0isize)],
        seed_cells(SeedPattern::Glider) == seq![(0isize, -1isize), (1isize, 0isize), (-1isize, 1isize), (0isize, 1isize), (1isize, 1isize)],
        seed_cells(SeedPattern::RPentomino) == seq![(0isize, -1isize), (1isize, -1isize), (-1isize, 0isize), (0isize, 0isize), (0isize, 1isize)],
{
    assert(seed_cells(SeedPattern::Glider) =~= seq![(0isize, -1isize), (1isize, 0isize), (-1isize, 1isize), (0isize, 1isize), (1isize, 1isize)]);
}

proof fn appended_wallpaper_from(args: Seq<Seq<char>>, i: int, cfg: AppConfig)
    requires
        1 <= i <= args.len(),
    ensures
        parse_from(args, i, cfg) matches ArgsOutcome::Parsed(c) ==> parse_from(args.push("--wallpaper"@), i, cfg)
            == ArgsOutcome::Parsed(AppConfig { wallpaper: true, ..c }),
    decreases args.len() - i,
{
    let a2 = args.push("--wallpaper"@);
    if i == args.len() {
        assert(a2[i] == "--wallpaper"@);
        assert(parse_from(a2, i + 1, AppConfig { wallpaper: true, ..cfg }) == ArgsOutcome::Parsed(
            AppConfig { wallpaper: true, ..cfg },
        ));
    } else {
        assert(a2[i] == args[i]);
        if i + 1 < args.len() {
            assert(a2[i + 1] == args[i + 1]);
        }
        if args[i] == "--wallpaper"@ {
            appended_wallpaper_from(args, i + 1, AppConfig { wallpaper: true, ..cfg });
        } else if args[i] == "--mode"@ {
            if i + 1 < args.len() {
                appended_wallpaper_from(args, i + 2, AppConfig { mode: SimMode::GameOfLife, ..cfg });
                appended_wallpaper_from(args, i + 2, AppConfig { mode: SimMode::Physarum, ..cfg });
            }
        } else if args[i] == "--seed"@ {
            if i + 1 < args.len() {
                appended_wallpaper_from(args, i + 2, AppConfig { seed: SeedPattern::Blinker, ..cfg });
                appended_wallpaper_from(args, i + 2, AppConfig { seed: SeedPattern::Glider, ..cfg });
                appended_wallpaper_from(args, i + 2, AppConfig { seed: SeedPattern::RPentomino, ..cfg });
            }
        } else {
            appended_wallpaper_from(args, i + 1, cfg);
        }
    }
}

/// A `--wallpaper` at the end of a command line that parses turns the
/// wallpaper on and changes nothing else.
pub proof fn trailing_wallpaper_turns_it_on(args: Seq<Seq<char>>)
    requires
        args.len() >= 1,
    ensures
        parse_spec(args) matches ArgsOutcome::Parsed(c) ==> parse_spec(args.push("--wallpaper"@))
            == ArgsOutcome::Parsed(AppConfig { wallpaper: true, ..c }),
{
    appended_wallpaper_from(args, 1, default_config());
}

proof fn wallpaper_stays_on_from(args: Seq<Seq<char>>, i: int, cfg: AppConfig)
    requires
        cfg.wallpaper,
    ensures
        parse_from(args, i, cfg) matches ArgsOutcome::Parsed(c) ==> c.wallpaper,
    decreases args.len() - i,
{
    if 0 <= i < args.len() {
        if args[i] == "--wallpaper"@ {
            wallpaper_stays_on_from(args, i + 1, AppConfig { wallpaper: true, ..cfg });
        } else if args[i] == "--mode"@ {
            if i + 1 < args.len() {
                wallpaper_stays_on_from(args, i + 2, AppConfig { mode: SimMode::GameOfLife, ..cfg });
                wallpaper_stays_on_from(args, i + 2, AppConfig { mode: SimMode::Physarum, ..cfg });
            }
        } else if args[i] == "--seed"@ {
            if i + 1 < args.len() {
                wallpaper_stays_on_from(args, i + 2, AppConfig { seed: SeedPattern::Blinker, ..cfg });
                wallpaper_stays_on_from(args, i + 2, AppConfig { seed: SeedPattern::Glider, ..cfg });
                wallpaper_stays_on_from(args, i + 2, AppConfig { seed: SeedPattern::RPentomino, ..cfg });
            }
        } else {
            wallpaper_stays_on_from(args, i + 1, cfg);
        }
    }
}

/// Once a `--wallpaper` is read, nothing later turns the wallpaper off: a
/// parse that reaches a `--wallpaper` at position `i` and succeeds has the
/// wallpaper on.
pub proof fn wallpaper_flag_turns_it_on(args: Seq<Seq<char>>, i: int, cfg: AppConfig)
    requires
        0 <= i < args.len(),
        args[i] == "--wallpaper"@,
    ensures
        parse_from(args, i, cfg) matches ArgsOutcome::Parsed(c) ==> c.wallpaper,
{
    wallpaper_stays_on_from(args, i + 1, AppConfig { wallpaper: true, ..cfg });
}

} // verus!
