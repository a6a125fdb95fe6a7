//! The system commands the application runs, and the text work of the build
//! step that renders its icons.
use vstd::prelude::*;

use crate::text::{concat_text, decimal, decimal_text, join, join_with, owned, replace, replace_all, string_views};

verus! {

/// The square sizes, in pixels, at which every icon is rendered.
pub const ICON_SIZES: [u16; 14] = [16, 20, 24, 30, 32, 36, 40, 48, 60, 64, 72, 80, 96, 256];

/// The views of a list of commands, each a program followed by its arguments.
pub open spec fn commands_view(commands: Seq<Vec<String>>) -> Seq<Seq<Seq<char>>> {
    commands.map_values(|c: Vec<String>| string_views(c@))
}

/// The command line that is logged before a command runs: its words with a
/// space between each two.
pub fn command_line(command: &Vec<String>) -> (line: String)
    ensures
        line@ == join_with(string_views(command@), " "@),
{
    join(command, " ")
}

/// A command made of the given words.
fn words(parts: Vec<&str>) -> (r: Vec<String>)
    ensures
        r@.len() == parts@.len(),
        forall|k: int| 0 <= k < parts@.len() ==> #[trigger] r@[k]@ == parts@[k]@,
{
    let mut r: Vec<String> = Vec::new();
    let n = parts.len();
    let mut i: usize = 0;
    while i < n
        invariant
            n == parts@.len(),
            i <= n,
            r@.len() == i,
            forall|k: int| 0 <= k < i ==> #[trigger] r@[k]@ == parts@[k]@,
        decreases n - i,
    {
        r.push(owned(parts[i]));
        i = i + 1;
    }
    r
}

/// Adds the command made of `parts` after `commands`.
fn push_command(commands: &mut Vec<Vec<String>>, parts: Vec<&str>)
    ensures
        commands_view(final(commands)@) == commands_view(old(commands)@).push(
            parts@.map_values(|s: &str| s@),
        ),
{
    let ghost before = commands@;
    let c = words(parts);
    assert(string_views(c@) =~= parts@.map_values(|s: &str| s@));
    commands.push(c);
    assert(commands_view(commands@) =~= commands_view(before).push(parts@.map_values(|s: &str| s@)));
}

/// The commands that end every running copy of the protection process and
/// remove the packet driver it installs, in both of its versions.
pub open spec fn kill_goodbyedpi_commands() -> Seq<Seq<Seq<char>>> {
    seq![
        seq!["taskkill.exe"@, "/f"@, "/t"@, "/im"@, "goodbyedpi.exe"@],
        seq!["sc.exe"@, "stop"@, "windivert14"@],
        seq!["sc.exe"@, "delete"@, "windivert14"@],
        seq!["sc.exe"@, "stop"@, "windivert"@],
        seq!["sc.exe"@, "delete"@, "windivert"@],
    ]
}

/// The commands to run, in order, to end the protection process and its driver.
pub fn kill_goodbyedpi() -> (commands: Vec<Vec<String>>)
    ensures
        commands_view(commands@) == kill_goodbyedpi_commands(),
{
    let mut commands: Vec<Vec<String>> = Vec::new();
    let p0 = vec!["taskkill.exe", "/f", "/t", "/im", "goodbyedpi.exe"];
    let p1 = vec!["sc.exe", "stop", "windivert14"];
    let p2 = vec!["sc.exe", "delete", "windivert14"];
    let p3 = vec!["sc.exe", "stop", "windivert"];
    let p4 = vec!["sc.exe", "delete", "windivert"];
    let ghost expected = kill_goodbyedpi_commands();
    assert(p0@.map_values(|s: &str| s@) =~= expected[0]);
    assert(p1@.map_values(|s: &str| s@) =~= expected[1]);
    assert(p2@.map_values(|s: &str| s@) =~= expected[2]);
    assert(p3@.map_values(|s: &str| s@) =~= expected[3]);
    assert(p4@.map_values(|s: &str| s@) =~= expected[4]);
    assert(commands_view(commands@) =~= Seq::<Seq<Seq<char>>>::empty());
    push_command(&mut commands, p0);
    push_command(&mut commands, p1);
    push_command(&mut commands, p2);
    push_command(&mut commands, p3);
    push_command(&mut commands, p4);
    assert(commands_view(commands@) =~= expected);
    commands
}

/// The command that ends every running copy of the application itself.
pub open spec fn kill_ghostifydpi_commands() -> Seq<Seq<Seq<char>>> {
    seq![seq!["taskkill.exe"@, "/f"@, "/t"@, "/im"@, "ghostifydpi.exe"@]]
}

/// The commands to run to end the application itself (before a build).
pub fn kill_ghostifydpi() -> (commands: Vec<Vec<String>>)
    ensures
        commands_view(commands@) == kill_ghostifydpi_commands(),
{
    let mut commands: Vec<Vec<String>> = Vec::new();
    let p0 = vec!["taskkill.exe", "/f", "/t", "/im", "ghostifydpi.exe"];
    let ghost expected = kill_ghostifydpi_commands();
    assert(p0@.map_values(|s: &str| s@) =~= expected[0]);
    assert(commands_view(commands@) =~= Seq::<Seq<Seq<char>>>::empty());
    push_command(&mut commands, p0);
    assert(commands_view(commands@) =~= expected);
    commands
}

/// The commands that stop and remove a protection service installed apart
/// from the application.
pub open spec fn stop_goodbyedpi_service_commands() -> Seq<Seq<Seq<char>>> {
    seq![seq!["sc.exe"@, "stop"@, "goodbyedpi"@], seq!["sc.exe"@, "delete"@, "goodbyedpi"@]]
}

/// The commands to run to stop and remove that service.
pub fn stop_goodbyedpi_service() -> (commands: Vec<Vec<String>>)
    ensures
        commands_view(commands@) == stop_goodbyedpi_service_commands(),
{
    let mut commands: Vec<Vec<String>> = Vec::new();
    let p0 = vec!["sc.exe", "stop", "goodbyedpi"];
    let p1 = vec!["sc.exe", "delete", "goodbyedpi"];
    let ghost expected = stop_goodbyedpi_service_commands();
    assert(p0@.map_values(|s: &str| s@) =~= expected[0]);
    assert(p1@.map_values(|s: &str| s@) =~= expected[1]);
    assert(commands_view(commands@) =~= Seq::<Seq<Seq<char>>>::empty());
    push_command(&mut commands, p0);
    push_command(&mut commands, p1);
    assert(commands_view(commands@) =~= expected);
    commands
}

/// The command that opens `url` in the default browser.
pub fn open_url_command(url: &str) -> (command: Vec<String>)
    ensures
        string_views(command@) == seq!["cmd.exe"@, "/C"@, "start"@, url@],
{
    let command = words(vec!["cmd.exe", "/C", "start", url]);
    assert(string_views(command@) =~= seq!["cmd.exe"@, "/C"@, "start"@, url@]);
    command
}

/// The word that stands for the drawing colour in the icon sources.
pub open spec fn current_color() -> Seq<char> {
    "currentColor"@
}

/// An icon source drawn in `color`: every `currentColor` replaced by it, or
/// the source unchanged when no colour is given.
pub open spec fn recolored(contents: Seq<char>, color: Seq<char>) -> Seq<char> {
    if color.len() == 0 {
        contents
    } else {
        replace_all(contents, current_color(), color)
    }
}

/// The icon source `contents` drawn in `color`.
pub fn recolor_svg(contents: &str, color: &str) -> (r: String)
    ensures
        r@ == recolored(contents@, color@),
{
    proof {
        reveal_strlit("currentColor");
    }
    if color.is_empty() {
        owned(contents)
    } else {
        replace(contents, "currentColor", color)
    }
}

/// Whether a rendered file must be written: only when it differs from what
/// is there already, so that unchanged icons are left alone.
pub fn needs_update(data: &[u8], existing: &[u8]) -> (r: bool)
    ensures
        r == (data@ != existing@),
{
    if data.len() != existing.len() {
        return true;
    }
    let n = data.len();
    let mut i: usize = 0;
    while i < n
        invariant
            n == data@.len(),
            n == existing@.len(),
            i <= n,
            forall|k: int| 0 <= k < i ==> data@[k] == existing@[k],
        decreases n - i,
    {
        if data[i] != existing[i] {
            return true;
        }
        i = i + 1;
    }
    assert(data@ =~= existing@);
    false
}

/// The message logged when an icon is converted.
pub open spec fn conversion_text(src: Seq<char>, dst: Seq<char>, width: nat, height: nat) -> Seq<char> {
    "Converting from "@ + src + " to "@ + dst + ", size "@ + decimal(width) + "x"@ + decimal(height)
}

/// The message logged when the icon at `src` is converted to `dst` at the
/// given size.
pub fn conversion_message(src: &str, dst: &str, width: u32, height: u32) -> (r: String)
    ensures
        r@ == conversion_text(src@, dst@, width as nat, height as nat),
{
    let mut r = concat_text("Converting from ", src);
    r.append(" to ");
    r.append(dst);
    r.append(", size ");
    r.append(decimal_text(width).as_str());
    r.append("x");
    r.append(decimal_text(height).as_str());
    r
}

/// The folder that the rendered icons go to.
pub open spec fn generated_icons_dir() -> Seq<char> {
    "./icons/generated/"@
}

/// The file name of an icon of a given kind at a given size.
pub open spec fn sized_icon_name(prefix: Seq<char>, size: nat) -> Seq<char> {
    prefix + "_"@ + decimal(size) + "x"@ + decimal(size) + ".png"@
}

/// The file name of the `prefix` icon at `size` pixels.
pub fn sized_icon_name_text(prefix: &str, size: u16) -> (r: String)
    ensures
        r@ == sized_icon_name(prefix@, size as nat),
{
    let digits = decimal_text(size as u32);
    let mut r = concat_text(prefix, "_");
    r.append(digits.as_str());
    r.append("x");
    r.append(digits.as_str());
    r.append(".png");
    r
}

/// The path that the build writes the `prefix` icon at `size` pixels to.
pub fn sized_icon_path(prefix: &str, size: u16) -> (r: String)
    ensures
        r@ == generated_icons_dir() + sized_icon_name(prefix@, size as nat),
{
    let name = sized_icon_name_text(prefix, size);
    let r = concat_text("./icons/generated/", name.as_str());
    r
}

} // verus!
