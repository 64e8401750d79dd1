//! Repositories over a relational store of users, their friends, groups,
//! attributes and relationships, together with the classification of store
//! errors that every repository operation reports.
//!
//! Every repository offers the same four operations (find, create, update,
//! delete) with the same meaning, stated once in [`base::Repository`], and
//! adds the finders and membership operations of its own entity. The store
//! that they work on is [`store::Database`]: a relational store that keeps
//! its unique and referential constraints and cascades removals.

pub mod base;
pub mod error;
pub mod friend_attribute_repository;
pub mod friend_relationship_repository;
pub mod friend_repository;
pub mod group_repository;
pub mod models;
pub mod queries;
pub mod store;
pub mod table;
pub mod text;
pub mod user_friend_relationship_repository;
pub mod user_repository;

pub use crate::base::Repository;
pub use crate::error::RepositoryError;
pub use crate::friend_attribute_repository::{
    CreateFriendAttributeInput, FriendAttributeRepository, UpdateFriendAttributeInput,
};
pub use crate::friend_relationship_repository::{
    CreateFriendRelationshipInput, FriendRelationshipRepository, UpdateFriendRelationshipInput,
};
pub use crate::friend_repository::{CreateFriendInput, FriendRepository, UpdateFriendInput};
pub use crate::group_repository::{CreateGroupInput, GroupRepository, UpdateGroupInput};
pub use crate::models::{
    Date, Friend, FriendAttribute, FriendRelationship, Group, Timestamp, User,
    UserFriendRelationship,
};
pub use crate::store::Database;
pub use crate::table::Id;
pub use crate::user_friend_relationship_repository::{
    CreateUserFriendRelationshipInput, UpdateUserFriendRelationshipInput,
    UserFriendRelationshipRepository,
};
pub use crate::user_repository::{CreateUserInput, UpdateUserInput, UserRepository};
