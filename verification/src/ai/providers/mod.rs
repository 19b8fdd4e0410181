pub mod openai;
