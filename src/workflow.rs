//! One run of a workflow: its configuration and the response it builds.
use vstd::prelude::*;

use crate::chars::opt_view;
use crate::config::WorkflowConfig;
use crate::paths::{join, path_join};
use crate::{Item, Response};

verus! {

/// A running workflow: its configuration, the response it builds, and the
/// query by which results are filtered, where one is set.
#[derive(Debug)]
pub struct Workflow {
    pub config: WorkflowConfig,
    pub response: Response,
    pub keyword: Option<String>,
    pub sort_and_filter_results: bool,
}

impl Workflow {
    /// A workflow with `config`, an empty response and no filtering. The
    /// data and cache directories are expected to exist.
    pub fn new(config: WorkflowConfig) -> (r: Workflow)
        ensures
            r.config == config,
            r.response.items@.len() == 0,
            r.response.rerun is None && r.response.cache is None && r.response.skip_knowledge is None,
            r.keyword is None,
            !r.sort_and_filter_results,
    {
        Workflow { config, response: Response::new(), keyword: None, sort_and_filter_results: false }
    }

    /// Filters and sorts the results by `keyword` before they are written.
    pub fn set_filter_keyword(&mut self, keyword: String)
        ensures
            opt_view(final(self).keyword) == Some(keyword@),
            final(self).sort_and_filter_results,
            final(self).config == old(self).config,
            final(self).response == old(self).response,
    {
        self.keyword = Some(keyword);
        self.sort_and_filter_results = true;
    }

    /// Replaces the items of the response.
    pub fn items(&mut self, items: Vec<Item>)
        ensures
            final(self).response.items@ == items@,
            final(self).response == (Response { items: final(self).response.items, ..old(self).response }),
            *final(self) == (Workflow { response: final(self).response, ..*old(self) }),
    {
        self.response.items(items);
    }

    /// Adds `item` in front of the response's items.
    pub fn prepend_item(&mut self, item: Item)
        ensures
            final(self).response.items@ == seq![item] + old(self).response.items@,
            final(self).response == (Response { items: final(self).response.items, ..old(self).response }),
            *final(self) == (Workflow { response: final(self).response, ..*old(self) }),
    {
        let v = vec![item];
        self.response.prepend_items(v);
    }

    /// Adds `items` in front of the response's items.
    pub fn prepend_items(&mut self, items: Vec<Item>)
        ensures
            final(self).response.items@ == items@ + old(self).response.items@,
            final(self).response == (Response { items: final(self).response.items, ..old(self).response }),
            *final(self) == (Workflow { response: final(self).response, ..*old(self) }),
    {
        self.response.prepend_items(items);
    }

    /// Adds `items` after the response's items.
    pub fn append_items(&mut self, items: Vec<Item>)
        ensures
            final(self).response.items@ == old(self).response.items@ + items@,
            final(self).response == (Response { items: final(self).response.items, ..old(self).response }),
            *final(self) == (Workflow { response: final(self).response, ..*old(self) }),
    {
        self.response.append_items(items);
    }

    /// Adds `item` after the response's items.
    pub fn append_item(&mut self, item: Item)
        ensures
            final(self).response.items@ == old(self).response.items@.push(item),
            final(self).response == (Response { items: final(self).response.items, ..old(self).response }),
            *final(self) == (Workflow { response: final(self).response, ..*old(self) }),
    {
        let v = vec![item];
        self.response.append_items(v);
        assert(self.response.items@ =~= old(self).response.items@.push(item));
    }

    /// Sets whether the launcher should not learn from the choice.
    pub fn skip_knowledge(&mut self, skip: bool)
        ensures
            final(self).response == (Response { skip_knowledge: Some(skip), ..old(self).response }),
            *final(self) == (Workflow { response: final(self).response, ..*old(self) }),
    {
        self.response.skip_knowledge(skip);
    }

    /// The directory for the workflow's lasting data.
    pub fn data_dir(&self) -> (r: String)
        ensures
            r@ == self.config.workflow_data@,
    {
        self.config.workflow_data.clone()
    }

    /// The directory for the workflow's cached data.
    pub fn cache_dir(&self) -> (r: String)
        ensures
            r@ == self.config.workflow_cache@,
    {
        self.config.workflow_cache.clone()
    }

    /// The directory under the cache that holds the background jobs.
    pub fn jobs_dir(&self) -> (r: String)
        ensures
            r@ == path_join(self.config.workflow_cache@, "jobs"@),
    {
        join(self.config.workflow_cache.as_str(), "jobs")
    }
}

} // verus!
