# command_guard

A library that decides which shell commands are destructive enough to be held
back: commands that throw away work in a Git repository (`core.git`) and
commands that remove or overwrite files (`core.filesystem`). It is written in
Verus: every decision is stated in a contract and proved.

- `text`: texts as sequences of characters.
- `shell`: tokens, decoding, segments and wrapping programs of POSIX shells,
  PowerShell and Cmd; matching of texts of which only parts are known.
- `git`: what a command does to a repository. Branch options are read with
  their arity, aliases that a command line defines are followed, substitutions
  with a known output are replaced, and words that the shell expands are read
  for what they may become. `laws` states what holds of all decisions.
- `filesystem`: what an `rm`, `Remove-Item`, `xargs` or `find -exec` command
  removes, with the rules on other programs, and what exempt targets suppress of
  them. `laws` states what holds of all decisions, `notes` what holds of all
  suppressions.
- `pattern`: regular expressions, through the `fancy_regex` crate. Only patterns
  of the forms that it searches without fail are compiled.
- `pack`: rules, safe patterns, and what a pack finds in a command.

`git::create_pack` and `filesystem::create_pack` make the two packs;
`Pack::check` decides a command.

What is not proved is stated in a few declarations: `fancy_regex` (`pattern`),
`shell_words` (`shell::words`), `String::push` (`text`) and `char::from_u32`
(`shell::decode`).
