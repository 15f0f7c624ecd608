//! Story branching: nodes the player has walked through and the choice taken
//! at each of them.

use vstd::prelude::*;
use std::collections::HashMap;

verus! {

broadcast use vstd::std_specs::hash::group_hash_axioms;

/// One choice offered by a story node.
#[derive(Debug, Clone, Hash, PartialEq, Eq)]
pub struct StoryOption {
    pub next_node_id: u32,
    pub text: String,
    pub is_available: bool,
}

/// One station of the story, linked to its neighbours by id.
#[derive(Debug, Clone)]
pub struct StoryNode {
    pub id: u32,
    pub title: String,
    pub text: String,
    pub options: Vec<StoryOption>,
    pub is_end_node: bool,
    pub is_start_node: bool,
    pub previous_node_id: Option<u32>,
    pub next_node_id: Option<u32>,
}

impl StoryNode {
    /// A node whose neighbours default to the adjacent ids: the predecessor
    /// is `id - 1` unless this is a start node, the successor `id + 1`
    /// unless this is an end node.
    pub fn new(
        id: u32,
        title: String,
        text: String,
        options: Vec<StoryOption>,
        is_end_node: bool,
        is_start_node: bool,
    ) -> (result: StoryNode)
        requires
            !is_start_node ==> id >= 1,
            !is_end_node ==> id < u32::MAX,
        ensures
            result.id == id,
            result.title == title,
            result.text == text,
            result.options == options,
            result.is_end_node == is_end_node,
            result.is_start_node == is_start_node,
            result.previous_node_id == (if is_start_node {
                Option::<u32>::None
            } else {
                Option::Some((id - 1) as u32)
            }),
            result.next_node_id == (if is_end_node {
                Option::<u32>::None
            } else {
                Option::Some((id + 1) as u32)
            }),
    {
        let previous_node_id = if is_start_node {
            Option::None
        } else {
            Option::Some(id - 1)
        };
        let next_node_id = if is_end_node {
            Option::None
        } else {
            Option::Some(id + 1)
        };
        StoryNode {
            id,
            title,
            text,
            options,
            is_end_node,
            is_start_node,
            previous_node_id,
            next_node_id,
        }
    }

    /// Overwrites the predecessor link.
    pub fn set_previous_node_id(&mut self, previous_node_id: u32)
        ensures
            *final(self) == (StoryNode {
                previous_node_id: Option::Some(previous_node_id),
                ..*old(self)
            }),
    {
        self.previous_node_id = Option::Some(previous_node_id);
    }

    /// Overwrites the successor link.
    pub fn set_next_node_id(&mut self, next_node_id: u32)
        ensures
            *final(self) == (StoryNode { next_node_id: Option::Some(next_node_id), ..*old(self) }),
    {
        self.next_node_id = Option::Some(next_node_id);
    }
}

/// The player's walk through the story: the path of visited nodes in order,
/// and the choice recorded for each node id.
#[derive(Debug)]
pub struct PlayerStoryTree {
    pub past_node_choices: HashMap<u32, StoryOption>,
    pub story_path: Vec<StoryNode>,
}

impl PlayerStoryTree {
    /// An empty walk: no path, no recorded choices.
    pub fn new() -> (result: PlayerStoryTree)
        ensures
            result.story_path@ == Seq::<StoryNode>::empty(),
            result.past_node_choices@ == Map::<u32, StoryOption>::empty(),
    {
        PlayerStoryTree { past_node_choices: HashMap::new(), story_path: Vec::new() }
    }

    /// Appends a node to the walked path.
    fn add_story_node(&mut self, story_node: StoryNode)
        ensures
            final(self).story_path@ == old(self).story_path@.push(story_node),
            final(self).past_node_choices@ == old(self).past_node_choices@,
    {
        self.story_path.push(story_node);
    }

    /// The most recently walked node, if any.
    pub fn get_last_story_node(&self) -> (result: Option<&StoryNode>)
        ensures
            match result {
                Option::Some(node) => self.story_path@.len() > 0 && *node
                    == self.story_path@.last(),
                Option::None => self.story_path@.len() == 0,
            },
    {
        if self.story_path.len() == 0 {
            Option::None
        } else {
            let last_index = self.story_path.len() - 1;
            Option::Some(&self.story_path[last_index])
        }
    }

    /// The first node on the walked path with the given id, if any.
    pub fn get_story_node(&self, node_id: u32) -> (result: Option<&StoryNode>)
        ensures
            match result {
                Option::Some(node) => exists|i: int|
                    0 <= i < self.story_path@.len() && self.story_path@[i].id == node_id && *node
                        == self.story_path@[i] && (forall|j: int|
                        0 <= j < i ==> self.story_path@[j].id != node_id),
                Option::None => forall|i: int|
                    0 <= i < self.story_path@.len() ==> self.story_path@[i].id != node_id,
            },
    {
        let mut idx: usize = 0;
        while idx < self.story_path.len()
            invariant
                idx <= self.story_path@.len(),
                forall|j: int| 0 <= j < idx ==> self.story_path@[j].id != node_id,
            decreases self.story_path@.len() - idx,
        {
            if self.story_path[idx].id == node_id {
                return Option::Some(&self.story_path[idx]);
            }
            idx = idx + 1;
        }
        Option::None
    }

    /// Walks one step: the node joins the path and the option taken there is
    /// recorded under the node's id, replacing any earlier record for it.
    pub fn add_past_node_choice(&mut self, node: StoryNode, option: StoryOption)
        ensures
            final(self).story_path@ == old(self).story_path@.push(node),
            final(self).past_node_choices@ == old(self).past_node_choices@.insert(
                node.id,
                option,
            ),
    {
        let node_id = node.id;
        self.add_story_node(node);
        self.past_node_choices.insert(node_id, option);
    }

    /// The choice recorded for a node id, if one was taken there.
    pub fn get_past_node_choice(&self, node_id: u32) -> (result: Option<&StoryOption>)
        ensures
            match result {
                Option::Some(option) => self.past_node_choices@.contains_key(node_id) && *option
                    == self.past_node_choices@[node_id],
                Option::None => !self.past_node_choices@.contains_key(node_id),
            },
    {
        self.past_node_choices.get(&node_id)
    }
}

} // verus!
