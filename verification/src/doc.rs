use vstd::prelude::*;

verus! {

/// The help page listing the moderation commands, each shown with `prefix`.
pub open spec fn help_text(prefix: Seq<char>) -> Seq<char> {
    "## Help\n**Ban**\n\nBans a user permanently from the server\n```text\n"@ + prefix + " ban USERID MESSAGE?\n```\n\n**Unban**\n\nBans a user permanently from the server\n```text\n"@ + prefix + " !ban USERID\n```\n\n**Kick**\n\nKicks a user from the server\n```text\n"@ + prefix + " kick USERID\n```\n\n**Delete**\n\nDeletes a message by Id, (also works with replying)\n```text\n"@ + prefix + " delete MESSAGEID\n```\n\n**Warn**\n\nWarns a user, with an optional reason\n```text\n"@ + prefix + " warn USERID MESSAGE?\n```\n\n**Warns**\n\nDisplay count for warnings for user\n```text\n"@ + prefix + " warns USERID\n```"@
}

/// The list of project links.
pub open spec fn links_text() -> Seq<char> {
    "### Useful links\n[Source](https://github.com/toastxc/autoguard)\n[Issues](https://github.com/toastxc/autoguard/issues)\n[Wiki](https://github.com/toastxc/autoguard/wiki)\n"@
}

/// The help page for the command prefix `prefix`.
pub fn help(prefix: &str) -> (s: String)
    ensures
        s@ == help_text(prefix@),
{
    let mut s = String::from_str("## Help\n**Ban**\n\nBans a user permanently from the server\n```text\n");
    s.append(prefix);
    s.append(" ban USERID MESSAGE?\n```\n\n**Unban**\n\nBans a user permanently from the server\n```text\n");
    s.append(prefix);
    s.append(" !ban USERID\n```\n\n**Kick**\n\nKicks a user from the server\n```text\n");
    s.append(prefix);
    s.append(" kick USERID\n```\n\n**Delete**\n\nDeletes a message by Id, (also works with replying)\n```text\n");
    s.append(prefix);
    s.append(" delete MESSAGEID\n```\n\n**Warn**\n\nWarns a user, with an optional reason\n```text\n");
    s.append(prefix);
    s.append(" warn USERID MESSAGE?\n```\n\n**Warns**\n\nDisplay count for warnings for user\n```text\n");
    s.append(prefix);
    s.append(" warns USERID\n```");
    s
}

/// The project links.
pub fn links() -> (s: String)
    ensures
        s@ == links_text(),
{
    String::from_str("### Useful links\n[Source](https://github.com/toastxc/autoguard)\n[Issues](https://github.com/toastxc/autoguard/issues)\n[Wiki](https://github.com/toastxc/autoguard/wiki)\n")
}

} // verus!
