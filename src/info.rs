use vstd::prelude::*;

verus! {

/// The reply that describes an application by its name and its developer.
pub open spec fn info_text(app_name: Seq<char>, app_dev: Seq<char>) -> Seq<char> {
    "Welcome to "@ + app_name + "! By "@ + app_dev
}

/// Facts about the running application, fixed when it starts and read by every request.
/// Nothing changes them after construction.
pub struct AppState {
    app_name: String,
    app_dev: String,
}

impl View for AppState {
    /// The application's name and its developer.
    type V = (Seq<char>, Seq<char>);

    closed spec fn view(&self) -> (Seq<char>, Seq<char>) {
        (self.app_name@, self.app_dev@)
    }
}

impl AppState {
    /// Records the application's name and developer.
    pub fn new(app_name: String, app_dev: String) -> (r: AppState)
        ensures
            r@ == (app_name@, app_dev@),
    {
        AppState { app_name, app_dev }
    }

    /// Formats the description of the application.
    pub fn app_info(&self) -> (r: String)
        ensures
            r@ == info_text(self@.0, self@.1),
    {
        let mut s = String::from_str("Welcome to ");
        s.append(self.app_name.as_str());
        s.append("! By ");
        s.append(self.app_dev.as_str());
        s
    }
}

} // verus!
