use vstd::prelude::*;

verus! {

/// The command line of the server: one subcommand.
pub struct Cli {
    pub subcommand: SubCommand,
}

/// What the program is asked to do.
pub enum SubCommand {
    Serve(ServeCommand),
    User(UserCommand),
}

/// Start the server.
pub struct ServeCommand {}

/// Operations on the user directory.
pub struct UserCommand {
    pub subcommand: UserCommands,
}

/// The operations on the user directory.
pub enum UserCommands {
    Add(AddUser),
    Delete(DeleteUser),
    ChangePassword(ChangePassword),
    List(ListUsers),
}

/// Add a user, with a password given here or asked for.
pub struct AddUser {
    pub username: String,
    pub password: Option<String>,
}

/// Delete a user.
pub struct DeleteUser {
    pub username: String,
}

/// Change a user's password, given here or asked for.
pub struct ChangePassword {
    pub username: String,
    pub password: Option<String>,
}

/// List all users.
pub struct ListUsers {}

} // verus!
