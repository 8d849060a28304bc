//! Team sides, laser scripts and the texts that the component processes
//! are driven with.

use vstd::prelude::*;
use vstd::string::StringExecFns;
use crate::text::{join_texts, joined, texts_of};

verus! {

/// Which alliance we play for.
#[derive(Clone, Copy, Debug, Default, PartialEq, Eq)]
pub enum TeamSide {
    #[default]
    Red,
    Blue,
}

/// The lower-case name of a side.
pub open spec fn side_name(side: TeamSide) -> Seq<char> {
    match side {
        TeamSide::Red => "red"@,
        TeamSide::Blue => "blue"@,
    }
}

/// The other side.
pub open spec fn spec_enemy(side: TeamSide) -> TeamSide {
    match side {
        TeamSide::Red => TeamSide::Blue,
        TeamSide::Blue => TeamSide::Red,
    }
}

/// The laser daemon's target command: automatic target choice, or the enemy colour.
pub open spec fn enemy_command(side: TeamSide, laser_auto: bool) -> Seq<char> {
    if laser_auto {
        "enemy auto"@
    } else {
        match spec_enemy(side) {
            TeamSide::Red => "enemy red"@,
            TeamSide::Blue => "enemy blue"@,
        }
    }
}

/// Each side's enemy is the other colour, and the enemy's enemy is the side
/// itself; the laser is told to aim at the enemy by colour name ("enemy "
/// and the colour) unless it picks its target itself ("enemy auto").
pub proof fn law_laser_aims_at_the_other_colour(side: TeamSide, laser_auto: bool)
    ensures
        spec_enemy(side) != side,
        spec_enemy(spec_enemy(side)) == side,
        side_name(TeamSide::Red) != side_name(TeamSide::Blue),
        laser_auto ==> enemy_command(side, laser_auto) == "enemy auto"@,
        !laser_auto ==> enemy_command(side, laser_auto) == "enemy "@ + side_name(spec_enemy(side)),
{
    reveal_strlit("red");
    reveal_strlit("blue");
    reveal_strlit("enemy ");
    reveal_strlit("enemy red");
    reveal_strlit("enemy blue");
    assert("enemy red"@ =~= "enemy "@ + "red"@);
    assert("enemy blue"@ =~= "enemy "@ + "blue"@);
}

impl TeamSide {
    /// `"red"` or `"blue"`.
    pub fn as_str(self) -> (r: &'static str)
        ensures
            r@ == side_name(self),
    {
        match self {
            TeamSide::Red => "red",
            TeamSide::Blue => "blue",
        }
    }

    /// The opposing side.
    pub fn enemy(self) -> (r: TeamSide)
        ensures
            r == spec_enemy(self),
    {
        match self {
            TeamSide::Red => TeamSide::Blue,
            TeamSide::Blue => TeamSide::Red,
        }
    }

    /// The command that points the laser at the enemy: `"enemy auto"` when the
    /// laser picks its target itself, otherwise `"enemy "` and the enemy colour.
    pub fn laser_enemy_command(self, laser_auto: bool) -> (r: &'static str)
        ensures
            r@ == enemy_command(self, laser_auto),
    {
        if laser_auto {
            "enemy auto"
        } else {
            match self.enemy() {
                TeamSide::Red => "enemy red",
                TeamSide::Blue => "enemy blue",
            }
        }
    }
}

/// The scripts of the laser guidance repository.
#[derive(Clone, Copy, PartialEq, Eq, Debug)]
pub enum LaserScript {
    Competition,
    Preview,
    Stream,
    Record,
}

/// Display label of a script.
pub open spec fn script_label(s: LaserScript) -> Seq<char> {
    match s {
        LaserScript::Competition => "Competition"@,
        LaserScript::Preview => "Preview"@,
        LaserScript::Stream => "Stream"@,
        LaserScript::Record => "Record"@,
    }
}

/// File name of a script under the repository's `.script` directory.
pub open spec fn script_file(s: LaserScript) -> Seq<char> {
    match s {
        LaserScript::Competition => "competition-laser"@,
        LaserScript::Preview => "preview-laser"@,
        LaserScript::Stream => "stream"@,
        LaserScript::Record => "record"@,
    }
}

/// The competition and stream scripts detach a daemon that listens on the command FIFO.
pub open spec fn script_is_daemon(s: LaserScript) -> bool {
    s == LaserScript::Competition || s == LaserScript::Stream
}

impl LaserScript {
    /// Display label.
    pub fn label(&self) -> (r: &'static str)
        ensures
            r@ == script_label(*self),
    {
        match self {
            LaserScript::Competition => "Competition",
            LaserScript::Preview => "Preview",
            LaserScript::Stream => "Stream",
            LaserScript::Record => "Record",
        }
    }

    /// Script file name.
    pub fn script_name(self) -> (r: &'static str)
        ensures
            r@ == script_file(self),
    {
        match self {
            LaserScript::Competition => "competition-laser",
            LaserScript::Preview => "preview-laser",
            LaserScript::Stream => "stream",
            LaserScript::Record => "record",
        }
    }

    /// Whether the script leaves a daemon behind.
    pub fn is_daemon(&self) -> (r: bool)
        ensures
            r == script_is_daemon(*self),
    {
        match self {
            LaserScript::Competition => true,
            LaserScript::Stream => true,
            _ => false,
        }
    }
}

/// The text of an error raised while operating a component:
/// `"{component} {operation} at {path} failed: {cause}"`.
pub open spec fn contextual_text(
    component: Seq<char>,
    operation: Seq<char>,
    path: Seq<char>,
    cause: Seq<char>,
) -> Seq<char> {
    component + " "@ + operation + " at "@ + path + " failed: "@ + cause
}

/// Builds the message of a contextual error from the component, the
/// operation, the path it concerned and the underlying cause.
pub fn contextual_error(component: &str, operation: &str, path: &str, cause: &str) -> (r: String)
    ensures
        r@ == contextual_text(component@, operation@, path@, cause@),
{
    let mut s = String::from_str(component);
    s.append(" ");
    s.append(operation);
    s.append(" at ");
    s.append(path);
    s.append(" failed: ");
    s.append(cause);
    s
}

/// The FIFO that the laser daemon reads its commands from.
pub fn laser_fifo_path() -> (r: &'static str)
    ensures
        r@ == "/tmp/laser_cmd"@,
{
    "/tmp/laser_cmd"
}

/// The shell command that launches the radar stack for our side, with the
/// camera's raw recording switched on or off.
pub open spec fn radar_launch_text(side: Seq<char>, record: bool) -> Seq<char> {
    "source /opt/ros/jazzy/setup.bash && source ros_ws/install/setup.bash && exec ros2 launch radar_bringup competition.launch.py side:="@
        + side + " enable_raw_recording:="@ + (if record {
        "true"@
    } else {
        "false"@
    })
}

/// The shell command that launches the radar stack for our side, with the
/// camera's raw recording switched on or off.
pub fn radar_launch_command(side: &str, record: bool) -> (r: String)
    ensures
        r@ == radar_launch_text(side@, record),
{
    let mut s = String::from_str(
        "source /opt/ros/jazzy/setup.bash && source ros_ws/install/setup.bash && exec ros2 launch radar_bringup competition.launch.py side:=",
    );
    s.append(side);
    s.append(" enable_raw_recording:=");
    if record {
        s.append("true");
    } else {
        s.append("false");
    }
    s
}

/// The files, relative to its root, that a radar workspace must hold.
pub fn radar_root_required() -> (r: Vec<&'static str>)
    ensures
        r@.len() == 2,
        r@[0]@ == "ros_ws/install/setup.bash"@,
        r@[1]@ == "ros_ws/src/radar_bringup/launch/competition.launch.py"@,
{
    vec!["ros_ws/install/setup.bash", "ros_ws/src/radar_bringup/launch/competition.launch.py"]
}

/// The files, relative to its root, that a laser guidance checkout must hold.
pub fn laser_root_required() -> (r: Vec<&'static str>)
    ensures
        r@.len() == 4,
        r@[0]@ == ".script/competition-laser"@,
        r@[1]@ == ".script/preview-laser"@,
        r@[2]@ == ".script/stream"@,
        r@[3]@ == ".script/record"@,
{
    vec![".script/competition-laser", ".script/preview-laser", ".script/stream", ".script/record"]
}

/// The required files that are not present, in their order.
pub open spec fn missing_of(required: Seq<&'static str>, present: Seq<bool>) -> Seq<&'static str>
    decreases required.len(),
{
    if required.len() == 0 {
        Seq::empty()
    } else {
        let rest = missing_of(required.drop_last(), present);
        if present[required.len() - 1] {
            rest
        } else {
            rest.push(required.last())
        }
    }
}

/// Nothing is missing exactly when every required file is present.
pub proof fn lemma_nothing_missing(required: Seq<&'static str>, present: Seq<bool>)
    requires
        present.len() == required.len(),
    ensures
        missing_of(required, present).len() == 0 <==> forall|i: int|
            0 <= i < present.len() ==> present[i],
{
    lemma_missing_prefix(required, present);
}

proof fn lemma_missing_prefix(required: Seq<&'static str>, present: Seq<bool>)
    requires
        required.len() <= present.len(),
    ensures
        missing_of(required, present).len() == 0 <==> forall|i: int|
            0 <= i < required.len() ==> present[i],
    decreases required.len(),
{
    if required.len() > 0 {
        lemma_missing_prefix(required.drop_last(), present);
        if missing_of(required, present).len() == 0 {
            assert forall|i: int| 0 <= i < required.len() implies present[i] by {
                if i < required.len() - 1 {
                    assert(missing_of(required.drop_last(), present).len() == 0);
                }
            }
        }
    }
}

/// Keeps the required files whose entry in `present` is false.
pub fn missing_files(required: &Vec<&'static str>, present: &Vec<bool>) -> (r: Vec<&'static str>)
    requires
        present@.len() == required@.len(),
    ensures
        r@ == missing_of(required@, present@),
        r@.len() == 0 <==> forall|i: int| 0 <= i < present@.len() ==> present@[i],
{
    proof {
        lemma_nothing_missing(required@, present@);
    }
    let mut out: Vec<&'static str> = Vec::new();
    let mut i: usize = 0;
    while i < required.len()
        invariant
            i <= required@.len(),
            present@.len() == required@.len(),
            out@ == missing_of(required@.take(i as int), present@),
        decreases required@.len() - i,
    {
        proof {
            assert(required@.take(i as int + 1).drop_last() =~= required@.take(i as int));
        }
        if !present[i] {
            out.push(required[i]);
        }
        i = i + 1;
    }
    assert(required@.take(required@.len() as int) =~= required@);
    out
}

/// The error text of a root that misses required files.
pub open spec fn root_contract_text(root: Seq<char>, contract: Seq<char>, missing: Seq<&'static str>) -> Seq<char> {
    root + " does not satisfy "@ + contract + "; missing "@ + joined(texts_of(missing))
}

/// The error text of a root that misses required files.
pub fn root_contract_message(root: &str, contract: &str, missing: &Vec<&'static str>) -> (r: String)
    ensures
        r@ == root_contract_text(root@, contract@, missing@),
{
    let mut s = String::from_str(root);
    s.append(" does not satisfy ");
    s.append(contract);
    s.append("; missing ");
    let list = join_texts(missing);
    s.append(list.as_str());
    s
}

/// The decision on a root, given which of its required files are present:
/// `Ok` exactly when every one is, otherwise the error text that names the
/// missing ones in their order.
pub fn check_root_files(
    root: &str,
    contract: &str,
    required: &Vec<&'static str>,
    present: &Vec<bool>,
) -> (r: Result<(), String>)
    requires
        present@.len() == required@.len(),
    ensures
        r is Ok <==> forall|i: int| 0 <= i < present@.len() ==> present@[i],
        r matches Err(e) ==> e@ == root_contract_text(root@, contract@, missing_of(required@, present@)),
{
    let missing = missing_files(required, present);
    if missing.len() == 0 {
        Ok(())
    } else {
        Err(root_contract_message(root, contract, &missing))
    }
}

}
