//! What the warehouse client decides without the warehouse.
//!
//! The calls to BigQuery are the caller's. Here stand the settings, as the
//! environment gives them, and the order in which a table is looked for, created
//! or updated before the first row is written.

use vstd::prelude::*;
use crate::error::ConfigError;

verus! {

/// The key file that is read where the environment names none.
pub const DEFAULT_CREDENTIALS_PATH: &'static str = "/secrets/keyfile.json";

/// The one value that switches a flag off.
pub const FLAG_OFF: &'static str = "false";

/// The settings of the warehouse client.
#[derive(Debug, PartialEq, Eq)]
pub struct BigqueryClientConfig {
    pub project_id: String,
    pub dataset: String,
    pub table: String,
    pub google_application_credentials: String,
    /// Whether anything is sent to the warehouse at all.
    pub enable: bool,
    /// Whether the table is created or updated before rows are written.
    pub init: bool,
}

/// A `BigqueryClientConfig` as contracts see it.
pub struct BigqueryClientConfigView {
    pub project_id: Seq<char>,
    pub dataset: Seq<char>,
    pub table: Seq<char>,
    pub google_application_credentials: Seq<char>,
    pub enable: bool,
    pub init: bool,
}

impl View for BigqueryClientConfig {
    type V = BigqueryClientConfigView;

    open spec fn view(&self) -> BigqueryClientConfigView {
        BigqueryClientConfigView {
            project_id: self.project_id@,
            dataset: self.dataset@,
            table: self.table@,
            google_application_credentials: self.google_application_credentials@,
            enable: self.enable,
            init: self.init,
        }
    }
}

/// What a flag of the environment says: it is on unless its value is exactly
/// `false`. A flag that is not set, or set to anything else, is on.
pub open spec fn flag_spec(value: Option<String>) -> bool {
    match value {
        Some(text) => text@ != FLAG_OFF@,
        None => true,
    }
}

/// What a flag of the environment says.
pub fn flag(value: &Option<String>) -> (on: bool)
    ensures
        on == flag_spec(*value),
{
    match value {
        Some(text) => {
            let off = FLAG_OFF.to_owned();
            !(*text == off)
        },
        None => true,
    }
}

/// The settings that the environment asks for, where it names a project, a
/// dataset and a table.
pub open spec fn settings_spec(
    google_application_credentials: Option<String>,
    project_id: String,
    dataset: String,
    table: String,
    enable: Option<String>,
    init: Option<String>,
) -> BigqueryClientConfigView {
    BigqueryClientConfigView {
        project_id: project_id@,
        dataset: dataset@,
        table: table@,
        google_application_credentials: match google_application_credentials {
            Some(path) => path@,
            None => DEFAULT_CREDENTIALS_PATH@,
        },
        enable: flag_spec(enable),
        init: flag_spec(init),
    }
}

impl BigqueryClientConfig {
    /// Settings with the given values. All values are accepted.
    pub fn new(
        project_id: String,
        dataset: String,
        table: String,
        google_application_credentials: String,
        enable: bool,
        init: bool,
    ) -> (config: Result<Self, ConfigError>)
        ensures
            config == Ok::<Self, ConfigError>(
                BigqueryClientConfig {
                    project_id,
                    dataset,
                    table,
                    google_application_credentials,
                    enable,
                    init,
                },
            ),
    {
        Ok(
            BigqueryClientConfig {
                project_id,
                dataset,
                table,
                google_application_credentials,
                enable,
                init,
            },
        )
    }

    /// The settings that the environment asks for, given the values of
    /// `GOOGLE_APPLICATION_CREDENTIALS`, `BQ_PROJECT_ID`, `BQ_DATASET`, `BQ_TABLE`,
    /// `BQ_ENABLE` and `BQ_INIT`, each `None` where it is not set. Project,
    /// dataset and table must be set; the first of them that is not is the error.
    pub fn from_env(
        google_application_credentials: Option<String>,
        project_id: Option<String>,
        dataset: Option<String>,
        table: Option<String>,
        enable: Option<String>,
        init: Option<String>,
    ) -> (config: Result<Self, ConfigError>)
        ensures
            project_id is None ==> config == Err::<Self, ConfigError>(
                ConfigError::MissingProjectId,
            ),
            project_id is Some && dataset is None ==> config == Err::<Self, ConfigError>(
                ConfigError::MissingDataset,
            ),
            project_id is Some && dataset is Some && table is None ==> config == Err::<
                Self,
                ConfigError,
            >(ConfigError::MissingTable),
            project_id is Some && dataset is Some && table is Some ==> config is Ok
                && config.unwrap()@ == settings_spec(
                google_application_credentials,
                project_id.unwrap(),
                dataset.unwrap(),
                table.unwrap(),
                enable,
                init,
            ),
    {
        let credentials = match google_application_credentials {
            Some(path) => path,
            None => DEFAULT_CREDENTIALS_PATH.to_owned(),
        };
        let project_id = match project_id {
            Some(name) => name,
            None => {
                return Err(ConfigError::MissingProjectId);
            },
        };
        let dataset = match dataset {
            Some(name) => name,
            None => {
                return Err(ConfigError::MissingDataset);
            },
        };
        let table = match table {
            Some(name) => name,
            None => {
                return Err(ConfigError::MissingTable);
            },
        };
        let enable = flag(&enable);
        let init = flag(&init);
        Self::new(project_id, dataset, table, credentials, enable, init)
    }
}

/// How far the preparation of the table has come.
#[derive(Clone, Copy, Debug, PartialEq, Eq, Structural)]
pub enum TableInitState {
    /// Nothing was done yet.
    Start,
    /// The table is being looked for.
    Checking,
    /// The table was missing and is being created.
    Creating,
    /// The table was created and is awaited.
    Waiting,
    /// The table was there and its schema is being updated.
    Updating,
    /// Rows can be written.
    Done,
}

/// What the caller does next for the table.
#[derive(Clone, Copy, Debug, PartialEq, Eq, Structural)]
pub enum TableInitAction {
    /// Ask the warehouse whether the table is there.
    CheckTable,
    /// Create the table.
    CreateTable,
    /// Update the schema of the table.
    UpdateSchema,
    /// Sleep for `WAIT_SECONDS`, then ask whether the table is there.
    SleepAndCheckTable,
    /// Nothing more: the preparation is over.
    Finish,
}

/// How long the caller sleeps between two looks at a table that is awaited.
pub const WAIT_SECONDS: u64 = 1;

/// The step that follows `state`. `table_exists` is what the last look at the
/// table found; it counts in the states `Checking` and `Waiting` only.
///
/// Where the client is switched off, or told not to prepare the table, nothing
/// is done. Otherwise the table is looked for; one that is there has its schema
/// updated, one that is missing is created and then awaited, with a look every
/// `WAIT_SECONDS` until it is there.
pub open spec fn table_init_step(
    enable: bool,
    init: bool,
    state: TableInitState,
    table_exists: bool,
) -> (TableInitState, TableInitAction) {
    match state {
        TableInitState::Start => if enable && init {
            (TableInitState::Checking, TableInitAction::CheckTable)
        } else {
            (TableInitState::Done, TableInitAction::Finish)
        },
        TableInitState::Checking => if table_exists {
            (TableInitState::Updating, TableInitAction::UpdateSchema)
        } else {
            (TableInitState::Creating, TableInitAction::CreateTable)
        },
        TableInitState::Creating => (TableInitState::Waiting, TableInitAction::CheckTable),
        TableInitState::Waiting => if table_exists {
            (TableInitState::Done, TableInitAction::Finish)
        } else {
            (TableInitState::Waiting, TableInitAction::SleepAndCheckTable)
        },
        TableInitState::Updating => (TableInitState::Done, TableInitAction::Finish),
        TableInitState::Done => (TableInitState::Done, TableInitAction::Finish),
    }
}

/// The preparation is over exactly when the caller is told to finish, and a client
/// that is switched off, or told not to prepare the table, finishes at once,
/// without a look at the warehouse.
pub proof fn lemma_table_init_finishes(
    enable: bool,
    init: bool,
    state: TableInitState,
    table_exists: bool,
)
    ensures
        table_init_step(enable, init, state, table_exists).0 == TableInitState::Done
            <==> table_init_step(enable, init, state, table_exists).1 == TableInitAction::Finish,
        !(enable && init) ==> table_init_step(enable, init, TableInitState::Start, table_exists)
            == (TableInitState::Done, TableInitAction::Finish),
{
}

/// The warehouse client.
#[derive(Debug, PartialEq, Eq)]
pub struct BigqueryClient {
    pub config: BigqueryClientConfig,
}

impl BigqueryClient {
    pub fn new(config: BigqueryClientConfig) -> (client: Self)
        ensures
            client.config == config,
    {
        BigqueryClient { config }
    }

    /// Whether the warehouse is called at all. A client that is switched off
    /// looks for no table, creates and updates none, and writes no rows.
    pub fn is_enabled(&self) -> (enabled: bool)
        ensures
            enabled == self.config.enable,
    {
        self.config.enable
    }

    /// The next step in preparing the table, and the state it leads to.
    pub fn init_table(&self, state: TableInitState, table_exists: bool) -> (next: (
        TableInitState,
        TableInitAction,
    ))
        ensures
            next == table_init_step(self.config.enable, self.config.init, state, table_exists),
    {
        match state {
            TableInitState::Start => if self.config.enable && self.config.init {
                (TableInitState::Checking, TableInitAction::CheckTable)
            } else {
                (TableInitState::Done, TableInitAction::Finish)
            },
            TableInitState::Checking => if table_exists {
                (TableInitState::Updating, TableInitAction::UpdateSchema)
            } else {
                (TableInitState::Creating, TableInitAction::CreateTable)
            },
            TableInitState::Creating => (TableInitState::Waiting, TableInitAction::CheckTable),
            TableInitState::Waiting => if table_exists {
                (TableInitState::Done, TableInitAction::Finish)
            } else {
                (TableInitState::Waiting, TableInitAction::SleepAndCheckTable)
            },
            TableInitState::Updating => (TableInitState::Done, TableInitAction::Finish),
            TableInitState::Done => (TableInitState::Done, TableInitAction::Finish),
        }
    }
}

} // verus!
