//! Playing an episode in an external player.
use vstd::prelude::*;

use crate::config::Players;
use crate::error::PlayerError;

verus! {

/// The mpv player.
#[derive(Debug, Clone, Copy)]
pub struct Mpv;

/// The Cine player.
#[derive(Debug, Clone, Copy)]
pub struct Cine;

/// A program to run and its arguments.
#[derive(Debug)]
pub struct PlayerCommand {
    pub program: String,
    pub args: Vec<String>,
}

pub open spec fn string_views(v: Seq<String>) -> Seq<Seq<char>> {
    v.map_values(|s: String| s@)
}

impl PlayerCommand {
    /// The command runs `program` with exactly `args`.
    pub open spec fn runs(&self, program: Seq<char>, args: Seq<Seq<char>>) -> bool {
        self.program@ == program && string_views(self.args@) == args
    }
}

impl Mpv {
    /// `mpv --network-timeout=20 {input}`.
    pub fn command(input: &str) -> (c: PlayerCommand)
        ensures
            c.runs("mpv"@, seq!["--network-timeout=20"@, input@]),
    {
        let mut args: Vec<String> = Vec::new();
        args.push(String::from_str("--network-timeout=20"));
        args.push(String::from_str(input));
        assert(string_views(args@) =~= seq!["--network-timeout=20"@, input@]);
        PlayerCommand { program: String::from_str("mpv"), args }
    }
}

impl Cine {
    /// `cine {input}`.
    pub fn command(input: &str) -> (c: PlayerCommand)
        ensures
            c.runs("cine"@, seq![input@]),
    {
        let mut args: Vec<String> = Vec::new();
        args.push(String::from_str(input));
        assert(string_views(args@) =~= seq![input@]);
        PlayerCommand { program: String::from_str("cine"), args }
    }
}

/// The command that plays `input` in `player`.
pub fn command_for(player: Players, input: &str) -> (c: PlayerCommand)
    ensures
        player == Players::Mpv ==> c.runs("mpv"@, seq!["--network-timeout=20"@, input@]),
        player == Players::Cine ==> c.runs("cine"@, seq![input@]),
{
    match player {
        Players::Mpv => Mpv::command(input),
        Players::Cine => Cine::command(input),
    }
}

/// How the player's exit ends playback: success, or a crash of that player.
pub fn exit_result(player: Players, success: bool) -> (r: Result<(), PlayerError>)
    ensures
        success ==> r is Ok,
        !success ==> r == Err::<(), PlayerError>(PlayerError::Crash { player }),
{
    if success {
        Ok(())
    } else {
        Err(PlayerError::Crash { player })
    }
}

} // verus!
