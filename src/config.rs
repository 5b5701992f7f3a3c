use vstd::prelude::*;
use crate::error::AppError;

verus! {

/// One model that the configuration offers.
#[derive(Debug)]
pub struct ModelConfig {
    /// The name the model is selected by.
    pub name: String,
    /// The backend kind, such as `openai`.
    pub provider: String,
    /// The base address of the backend's API.
    pub api_base: String,
    /// The environment variable that holds the API key.
    pub api_key_env: String,
    /// The model identifier sent to the backend.
    pub model_id: String,
    /// An optional bound on the generated tokens.
    pub max_tokens: Option<usize>,
}

/// The prompts sent to the backend; `{diff}` in `user` stands for the diff.
#[derive(Debug)]
pub struct PromptConfig {
    pub system: String,
    pub user: String,
}

/// The loaded configuration.
#[derive(Debug)]
pub struct AppConfig {
    pub default_model: String,
    pub token_limit: usize,
    pub prompt: PromptConfig,
    pub models: Vec<ModelConfig>,
}

/// The position of the first model named `name`, if any.
pub open spec fn first_named(models: Seq<ModelConfig>, name: Seq<char>, i: int) -> bool {
    &&& 0 <= i < models.len()
    &&& models[i].name@ == name
    &&& forall|j: int| 0 <= j < i ==> #[trigger] models[j].name@ != name
}

/// Where the configuration is read from, given which candidates exist.
#[derive(Debug, PartialEq, Eq, Structural)]
pub enum ConfigSource {
    /// The path the user gave.
    Given,
    /// The path the user gave does not exist.
    GivenMissing,
    /// `config.toml` in the user's configuration directory.
    UserDir,
    /// `config.toml` in the working directory.
    WorkingDir,
    /// Nothing exists: write the default into the configuration directory.
    CreateDefault,
    /// Nothing exists and there is no configuration directory.
    NotFound,
}

/// Chooses where to read the configuration from. `given` is `None` when no
/// path was given, else whether the given path exists.
pub fn choose_config_source(
    given: Option<bool>,
    has_config_dir: bool,
    in_config_dir: bool,
    in_working_dir: bool,
) -> (r: ConfigSource)
    ensures
        // A given path decides alone.
        given == Some(true) ==> r == ConfigSource::Given,
        given == Some(false) ==> r == ConfigSource::GivenMissing,
        // Otherwise the user's configuration directory comes first,
        given is None && has_config_dir && in_config_dir ==> r == ConfigSource::UserDir,
        // then the working directory;
        given is None && !(has_config_dir && in_config_dir) && in_working_dir ==> r
            == ConfigSource::WorkingDir,
        // a default is written only where a configuration directory exists.
        given is None && has_config_dir && !in_config_dir && !in_working_dir ==> r
            == ConfigSource::CreateDefault,
        given is None && !has_config_dir && !in_working_dir ==> r == ConfigSource::NotFound,
{
    match given {
        Some(exists) => if exists {
            ConfigSource::Given
        } else {
            ConfigSource::GivenMissing
        },
        None => if has_config_dir && in_config_dir {
            ConfigSource::UserDir
        } else if in_working_dir {
            ConfigSource::WorkingDir
        } else if has_config_dir {
            ConfigSource::CreateDefault
        } else {
            ConfigSource::NotFound
        },
    }
}

impl AppConfig {
    /// The first model named `name`, or `ModelNotFound(name)` when there is none.
    pub fn find_model(&self, name: &str) -> (r: Result<&ModelConfig, AppError>)
        ensures
            r is Ok <==> exists|i: int| first_named(self.models@, name@, i),
            r is Ok ==> exists|i: int| #![auto]
                first_named(self.models@, name@, i) && *r->Ok_0 == self.models@[i],
            r is Err ==> r->Err_0 is ModelNotFound && r->Err_0->ModelNotFound_0@ == name@,
    {
        let wanted = name.to_owned();
        let mut i: usize = 0;
        while i < self.models.len()
            invariant
                i <= self.models@.len(),
                wanted@ == name@,
                forall|j: int| 0 <= j < i ==> #[trigger] self.models@[j].name@ != name@,
            decreases self.models@.len() - i,
        {
            if self.models[i].name == wanted {
                assert(first_named(self.models@, name@, i as int));
                return Ok(&self.models[i]);
            }
            i = i + 1;
        }
        assert forall|k: int| !first_named(self.models@, name@, k) by {
            if 0 <= k < self.models@.len() {
                assert(self.models@[k].name@ != name@);
            }
        }
        Err(AppError::ModelNotFound(wanted))
    }

    /// The name of the model a run uses: the requested one, else the default.
    pub open spec fn chosen_name(&self, requested: Option<&str>) -> Seq<char> {
        match requested {
            Some(n) => n@,
            None => self.default_model@,
        }
    }

    /// The model a run uses: the one named by `requested`, else the default.
    pub fn model_for(&self, requested: Option<&str>) -> (r: Result<&ModelConfig, AppError>)
        ensures
            r is Ok <==> exists|i: int| first_named(self.models@, self.chosen_name(requested), i),
            r is Ok ==> exists|i: int| #![auto]
                first_named(self.models@, self.chosen_name(requested), i) && *r->Ok_0
                    == self.models@[i],
            r is Err ==> r->Err_0 is ModelNotFound && r->Err_0->ModelNotFound_0@
                == self.chosen_name(requested),
    {
        let name = match requested {
            Some(n) => n,
            None => self.default_model.as_str(),
        };
        assert(name@ == self.chosen_name(requested));
        self.find_model(name)
    }
}

} // verus!
