//! Starting the render server at login, by a desktop file in the user's
//! autostart directory.

use vstd::prelude::*;

use crate::paths::join;
use crate::text::{push_str, quoted_text, string_of};

verus! {

pub const DESKTOP_FILE_NAME: &'static str = "dev.wplinux.render-server.desktop";

/// The name of the server's program, which lies beside the editor's.
pub const SERVER_FILE_NAME: &'static str = "render-server";

/// Where the desktop file lies, below the user's configuration.
pub open spec fn desktop_file(config_dir: Seq<char>) -> Seq<char> {
    crate::paths::joined(crate::paths::joined(config_dir, "autostart"@), DESKTOP_FILE_NAME@)
}

/// Where the desktop file lies. The server is started at login just when the
/// file is there.
pub fn desktop_file_path(config_dir: &str) -> (r: String)
    ensures
        r@ == desktop_file(config_dir@),
{
    join(join(config_dir, "autostart").as_str(), DESKTOP_FILE_NAME)
}

/// Where the server's program is looked for.
pub fn render_server_path(program_dir: &str) -> (r: String)
    ensures
        r@ == crate::paths::joined(program_dir@, SERVER_FILE_NAME@),
{
    join(program_dir, SERVER_FILE_NAME)
}

/// The text of the desktop file.
pub open spec fn desktop_text(server: Seq<char>) -> Seq<char> {
    "[Desktop Entry]\nType=Application\nName=WP Linux Render Server\nComment=Renders the WP Linux animated wallpaper in the background\nExec="@
        + server + "\nTerminal=false\nNoDisplay=true\nX-GNOME-Autostart-enabled=true\n"@
}

/// What has to be done to a file.
pub enum AutostartAction {
    Write { path: String, contents: String },
    /// The file may be missing already.
    Remove { path: String },
}

/// A file that has to be there and is not.
#[derive(Debug)]
pub struct NotFound {
    pub message: String,
}

/// What switching the start at login on or off takes. Switching it on fails
/// where no server lies beside the editor.
pub fn set_enabled(
    enabled: bool,
    config_dir: &str,
    program_dir: &str,
    server_is_file: bool,
) -> (r: Result<AutostartAction, NotFound>)
    ensures
        match r {
            Ok(AutostartAction::Write { path, contents }) => {
                &&& enabled && server_is_file
                &&& path@ == desktop_file(config_dir@)
                &&& contents@ == desktop_text(
                    crate::paths::joined(program_dir@, SERVER_FILE_NAME@),
                )
            },
            Ok(AutostartAction::Remove { path }) => !enabled && path@ == desktop_file(config_dir@),
            Err(e) => {
                &&& enabled && !server_is_file
                &&& e.message@ == "no render-server binary next to wp_linux_editor at "@
                    + crate::text::quoted(
                    crate::paths::joined(program_dir@, SERVER_FILE_NAME@),
                )
            },
        },
{
    let path = desktop_file_path(config_dir);
    if !enabled {
        return Ok(AutostartAction::Remove { path });
    }
    let server = render_server_path(program_dir);
    let mut text: Vec<char> = Vec::new();
    if server_is_file {
        push_str(
            &mut text,
            "[Desktop Entry]\nType=Application\nName=WP Linux Render Server\nComment=Renders the WP Linux animated wallpaper in the background\nExec=",
        );
        push_str(&mut text, server.as_str());
        push_str(
            &mut text,
            "\nTerminal=false\nNoDisplay=true\nX-GNOME-Autostart-enabled=true\n",
        );
        assert(text@ =~= desktop_text(server@));
        Ok(AutostartAction::Write { path, contents: string_of(text.as_slice()) })
    } else {
        push_str(&mut text, "no render-server binary next to wp_linux_editor at ");
        push_str(&mut text, quoted_text(server.as_str()).as_str());
        Err(NotFound { message: string_of(text.as_slice()) })
    }
}


/// The desktop file is an application's, runs the server, and is not shown
/// among the user's programs.
pub proof fn desktop_file_runs_the_server(server: Seq<char>) -> (around: (Seq<char>, Seq<char>))
    ensures
        ({
            let (front, back) = around;
            &&& desktop_text(server) == front + "\nExec="@ + server + "\n"@ + back
            &&& crate::text::starts_with(front, "[Desktop Entry]\nType=Application\n"@)
            &&& crate::text::found(back, "NoDisplay=true\n"@) is Some
        }),
{
    reveal_strlit(
        "[Desktop Entry]\nType=Application\nName=WP Linux Render Server\nComment=Renders the WP Linux animated wallpaper in the background\nExec=",
    );
    reveal_strlit("\nTerminal=false\nNoDisplay=true\nX-GNOME-Autostart-enabled=true\n");
    reveal_strlit("\nExec=");
    reveal_strlit("\n");
    reveal_strlit("[Desktop Entry]\nType=Application\n");
    reveal_strlit("NoDisplay=true\n");
    let head =
        "[Desktop Entry]\nType=Application\nName=WP Linux Render Server\nComment=Renders the WP Linux animated wallpaper in the background\nExec="@;
    let foot = "\nTerminal=false\nNoDisplay=true\nX-GNOME-Autostart-enabled=true\n"@;
    let front = head.take(head.len() - 6);
    let back = foot.skip(1);
    assert(head =~= front + "\nExec="@);
    assert(foot =~= "\n"@ + back);
    assert(desktop_text(server) =~= front + "\nExec="@ + server + "\n"@ + back);
    assert(front.take("[Desktop Entry]\nType=Application\n"@.len() as int)
        =~= "[Desktop Entry]\nType=Application\n"@);
    assert(crate::text::occurs_at(back, "NoDisplay=true\n"@, 15)) by {
        assert(back.subrange(15, 30) =~= "NoDisplay=true\n"@);
    }
    (front, back)
}

} // verus!
