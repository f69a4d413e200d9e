//! What the server says about itself.

use vstd::prelude::*;
use vstd::string::StringExecFns;

verus! {

/// The text of the information page for a server of version
/// `server_version` that runs version `plugin_version` of the add-on
/// `plugin_name`.
pub open spec fn info_text(
    server_version: Seq<char>,
    plugin_name: Seq<char>,
    plugin_version: Seq<char>,
) -> Seq<char> {
    "server: tes3mp "@ + server_version + "\nplugin: "@ + plugin_name + " "@ + plugin_version
        + "\nabout:\n  - https://github.com/TES3MP/openmw-tes3mp\n  - https://github.com/teamnwah/nwahttp\n"@
}

/// The information page.
pub fn get_info(server_version: &str, plugin_name: &str, plugin_version: &str) -> (info: String)
    ensures
        info@ == info_text(server_version@, plugin_name@, plugin_version@),
{
    let mut info = String::from_str("server: tes3mp ");
    info.append(server_version);
    info.append("\nplugin: ");
    info.append(plugin_name);
    info.append(" ");
    info.append(plugin_version);
    info.append(
        "\nabout:\n  - https://github.com/TES3MP/openmw-tes3mp\n  - https://github.com/teamnwah/nwahttp\n",
    );
    info
}

} // verus!
